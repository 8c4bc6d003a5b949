use bilistream::pattern::first_capture;

#[test]
fn first_capture_gives_the_group_of_the_leftmost_match() {
    assert_eq!(first_capture("a(b+)c", "xxabbbc abc", 1), Some(String::from("bbb")));
    assert_eq!(first_capture("a(b+)c", "xxabbbc abc", 0), Some(String::from("abbbc")));
    assert_eq!(first_capture("(x)|(y)", "y", 2), Some(String::from("y")));
}

#[test]
fn first_capture_is_none_without_a_match_or_a_group() {
    assert_eq!(first_capture("a(b+)c", "ac", 1), None);
    assert_eq!(first_capture("a(b+)c", "abc", 2), None);
    assert_eq!(first_capture("(x)|(y)", "y", 1), None);
}

#[test]
fn first_capture_is_none_for_a_pattern_that_does_not_compile() {
    assert_eq!(first_capture("a(b", "a(b", 0), None);
}
