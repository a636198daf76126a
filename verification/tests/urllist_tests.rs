use monitrous::urllist::split_lines;

fn lines(v: &[&str]) -> Vec<String> {
    v.iter().map(|s| String::from(*s)).collect()
}

#[test]
fn splits_at_newlines() {
    assert_eq!(
        split_lines("https://a.example\nhttps://b.example"),
        lines(&["https://a.example", "https://b.example"])
    );
}

#[test]
fn trailing_newline_adds_no_line() {
    assert_eq!(split_lines("https://a.example\n"), lines(&["https://a.example"]));
}

#[test]
fn carriage_return_before_newline_is_stripped() {
    assert_eq!(split_lines("a\r\nb\r\n"), lines(&["a", "b"]));
}

#[test]
fn lone_carriage_return_is_kept() {
    assert_eq!(split_lines("a\rb"), lines(&["a\rb"]));
    assert_eq!(split_lines("a\r"), lines(&["a\r"]));
}

#[test]
fn empty_text_has_no_lines() {
    assert_eq!(split_lines(""), lines(&[]));
}

#[test]
fn blank_lines_are_kept() {
    assert_eq!(split_lines("a\n\nb"), lines(&["a", "", "b"]));
    assert_eq!(split_lines("\n"), lines(&[""]));
}
