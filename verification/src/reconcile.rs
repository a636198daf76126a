//! The directory reconciler: matching the filenames of an old and a new
//! capture run. A filename present in only one listing marks a capture that
//! failed or was absent in the other run; such a name is silently skipped,
//! never an error.

use vstd::prelude::*;

verus! {

/// The names matched between the two runs: each name of the new run's
/// listing that the old run's listing also holds, in the new run's order.
pub open spec fn matched_spec(new_names: Seq<Seq<char>>, old_names: Seq<Seq<char>>) -> Seq<
    Seq<char>,
> {
    new_names.filter(|n: Seq<char>| old_names.contains(n))
}

/// Whether `name` stands in `names`.
fn contains_name(names: &Vec<String>, name: &String) -> (r: bool)
    ensures
        r == names.deep_view().contains(name@),
{
    let n = names.len();
    for i in 0..n
        invariant
            n == names.len(),
            forall|j: int| 0 <= j < i ==> names.deep_view()[j] != name@,
    {
        if names[i].eq(name) {
            proof {
                assert(names.deep_view()[i as int] == name@);
            }
            return true;
        }
    }
    false
}

/// Match the two listings: keep, in the new run's order, each filename of
/// the new run that the old run also holds.
pub fn matched_pairs(new_names: &Vec<String>, old_names: &Vec<String>) -> (r: Vec<String>)
    ensures
        r.deep_view() == matched_spec(new_names.deep_view(), old_names.deep_view()),
{
    let mut r: Vec<String> = Vec::new();
    let n = new_names.len();
    for i in 0..n
        invariant
            n == new_names.len(),
            r.deep_view() == matched_spec(
                new_names.deep_view().take(i as int),
                old_names.deep_view(),
            ),
    {
        let ghost dv = new_names.deep_view();
        let ghost ov = old_names.deep_view();
        let ghost r0 = r.deep_view();
        let ghost rv0 = r@;
        let name = &new_names[i];
        let is_match = contains_name(old_names, name);
        if is_match {
            r.push(name.clone());
            proof {
                assert(r@ == rv0.push(r@[rv0.len() as int]));
                assert(r@[rv0.len() as int]@ == name@);
                assert(r.deep_view() =~= r0.push(name@));
            }
        }
        proof {
            broadcast use Seq::lemma_filter_push;

            assert(dv[i as int] == name@);
            assert(dv.take(i + 1) =~= dv.take(i as int).push(dv[i as int]));
            assert(matched_spec(dv.take(i as int).push(dv[i as int]), ov) == matched_spec(
                dv.take(i + 1),
                ov,
            ));
            if is_match {
                assert(matched_spec(dv.take(i + 1), ov) == matched_spec(
                    dv.take(i as int),
                    ov,
                ).push(dv[i as int]));
            } else {
                assert(matched_spec(dv.take(i + 1), ov) == matched_spec(dv.take(i as int), ov));
            }
        }
    }
    proof {
        assert(new_names.deep_view().take(n as int) =~= new_names.deep_view());
    }
    r
}

/// Matching keeps a listing without duplicate names free of duplicates.
proof fn lemma_matched_no_duplicates(new_names: Seq<Seq<char>>, old_names: Seq<Seq<char>>)
    requires
        new_names.no_duplicates(),
    ensures
        matched_spec(new_names, old_names).no_duplicates(),
    decreases new_names.len(),
{
    reveal(Seq::filter);
    broadcast use Seq::lemma_filter_contains_rev;

    if new_names.len() != 0 {
        let last = new_names.last();
        let dl = new_names.drop_last();
        assert(dl.no_duplicates()) by {
            assert(forall|i: int, j: int|
                0 <= i < dl.len() && 0 <= j < dl.len() && i != j ==> dl[i] == new_names[i] && dl[j]
                    == new_names[j]);
        }
        lemma_matched_no_duplicates(dl, old_names);
        let m = matched_spec(new_names, old_names);
        let m_dl = matched_spec(dl, old_names);
        if old_names.contains(last) {
            assert(m == m_dl.push(last));
            assert(!dl.contains(last)) by {
                assert(forall|k: int| 0 <= k < dl.len() ==> dl[k] == new_names[k]);
            }
            assert(!m_dl.contains(last)) by {
                assert(m_dl.contains(last) ==> dl.contains(last));
            }
            assert forall|i: int, j: int|
                0 <= i < m.len() && 0 <= j < m.len() && i != j implies m[i] != m[j] by {
                if i == m.len() - 1 {
                    assert(m[j] == m_dl[j]);
                    assert(m_dl.contains(m_dl[j]));
                } else if j == m.len() - 1 {
                    assert(m[i] == m_dl[i]);
                    assert(m_dl.contains(m_dl[i]));
                } else {
                    assert(m[i] == m_dl[i] && m[j] == m_dl[j]);
                }
            }
        } else {
            assert(m == m_dl);
        }
    }
}

/// A reconciliation never invents a pair: every matched name stands in both
/// listings, and there are no more matches than the new listing has names.
/// As a directory lists each name once, there are then no more matches than
/// the old listing has names either.
pub proof fn lemma_matched_in_both(new_names: Seq<Seq<char>>, old_names: Seq<Seq<char>>)
    ensures
        forall|i: int|
            0 <= i < matched_spec(new_names, old_names).len() ==> new_names.contains(
                #[trigger] matched_spec(new_names, old_names)[i],
            ) && old_names.contains(matched_spec(new_names, old_names)[i]),
        matched_spec(new_names, old_names).len() <= new_names.len(),
        new_names.no_duplicates() ==> matched_spec(new_names, old_names).len() <= old_names.len(),
{
    broadcast use vstd::seq_lib::group_filter_ensures;
    broadcast use Seq::lemma_filter_contains_rev;
    broadcast use vstd::set::group_set_axioms;

    let m = matched_spec(new_names, old_names);
    assert forall|i: int| 0 <= i < m.len() implies new_names.contains(#[trigger] m[i])
        && old_names.contains(m[i]) by {
        assert(m.contains(m[i]));
    }
    if new_names.no_duplicates() {
        lemma_matched_no_duplicates(new_names, old_names);
        m.unique_seq_to_set();
        old_names.lemma_cardinality_of_set();
        assert forall|e: Seq<char>| m.to_set().contains(e) implies old_names.to_set().contains(
            e,
        ) by {
            assert(m.contains(e));
            let k = choose|k: int| 0 <= k < m.len() && m[k] == e;
            assert(old_names.contains(m[k]));
        }
        vstd::set_lib::lemma_len_subset(m.to_set(), old_names.to_set());
    }
}

} // verus!
