use proksi::text::{chars_of, same_text};

#[test]
fn chars_of_gives_every_character_in_order() {
    assert_eq!(chars_of("/api/v1"), vec!['/', 'a', 'p', 'i', '/', 'v', '1']);
    assert_eq!(chars_of(""), Vec::<char>::new());
    assert_eq!(chars_of("h\u{e9}\u{20ac}!"), vec!['h', '\u{e9}', '\u{20ac}', '!']);
}

#[test]
fn chars_of_a_long_text_keeps_its_length() {
    let long = "/segment".repeat(2000);
    let chars = chars_of(&long);
    assert_eq!(chars.len(), 16000);
    assert_eq!(chars[15999], 't');
    assert_eq!(chars.iter().collect::<String>(), long);
}

#[test]
fn same_text_compares_character_by_character() {
    assert!(same_text("example.com", "example.com"));
    assert!(same_text("", ""));
    assert!(!same_text("example.com", "Example.com"));
    assert!(!same_text("example.com", "example.co"));
    assert!(!same_text("a", ""));
}
