use monitrous::reconcile::matched_pairs;

fn names(v: &[&str]) -> Vec<String> {
    v.iter().map(|s| String::from(*s)).collect()
}

#[test]
fn matches_only_names_in_both_listings() {
    let new_names = names(&["a.png", "b.png", "c.png"]);
    let old_names = names(&["c.png", "a.png", "d.png"]);
    let matched = matched_pairs(&new_names, &old_names);
    assert_eq!(matched, names(&["a.png", "c.png"]));
}

#[test]
fn name_in_one_listing_only_is_skipped() {
    let new_names = names(&["only_new.png", "shared.png"]);
    let old_names = names(&["shared.png", "only_old.png"]);
    let matched = matched_pairs(&new_names, &old_names);
    assert_eq!(matched, names(&["shared.png"]));
    assert!(matched.len() <= new_names.len());
    assert!(matched.len() <= old_names.len());
}

#[test]
fn disjoint_listings_match_nothing() {
    let new_names = names(&["a.png"]);
    let old_names = names(&["b.png"]);
    assert!(matched_pairs(&new_names, &old_names).is_empty());
}

#[test]
fn empty_listings_match_nothing() {
    let none: Vec<String> = Vec::new();
    let some = names(&["a.png"]);
    assert!(matched_pairs(&none, &some).is_empty());
    assert!(matched_pairs(&some, &none).is_empty());
    assert!(matched_pairs(&none, &none).is_empty());
}

#[test]
fn matches_keep_the_new_listing_order() {
    let new_names = names(&["z.png", "m.png", "a.png"]);
    let old_names = names(&["a.png", "m.png", "z.png"]);
    let matched = matched_pairs(&new_names, &old_names);
    assert_eq!(matched, names(&["z.png", "m.png", "a.png"]));
}
