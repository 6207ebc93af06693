use rynth::text::{chars_of, substring};

#[test]
fn chars_and_substrings() {
    assert_eq!(chars_of("aé;b"), vec!['a', 'é', ';', 'b']);
    assert_eq!(substring("aé;b", 1, 3), "é;");
    assert_eq!(substring("abc", 2, 2), "");
}
