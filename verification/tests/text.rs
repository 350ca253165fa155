use tracer::text::clone_texts;
use tracer::text::contains_text;
use tracer::text::text_eq;
use tracer::text::utf8_text;

#[test]
fn equal_texts_are_told_from_others() {
    assert!(text_eq("", ""));
    assert!(text_eq("ping", "ping"));
    assert!(text_eq("é✓", "é✓"));
    assert!(!text_eq("ping", "pong"));
    assert!(!text_eq("ping", "pin"));
    assert!(!text_eq("pin", "ping"));
    assert!(!text_eq("", "a"));
    assert!(!text_eq("e", "é"));
}

#[test]
fn a_list_contains_its_items_only() {
    let items = vec!["sleep".to_string(), "bwa".to_string()];
    assert!(contains_text(&items, "sleep"));
    assert!(contains_text(&items, "bwa"));
    assert!(!contains_text(&items, "slee"));
    assert!(!contains_text(&items, ""));
    assert!(!contains_text(&vec![], "sleep"));
}

#[test]
fn a_copy_of_a_list_equals_it() {
    let items = vec!["a".to_string(), "".to_string(), "é".to_string()];
    assert_eq!(clone_texts(&items), items);
    assert_eq!(clone_texts(&vec![]), Vec::<String>::new());
}

#[test]
fn bytes_that_are_utf8_give_their_text() {
    assert_eq!(utf8_text(b"hello"), Some("hello"));
    assert_eq!(utf8_text(b""), Some(""));
    assert_eq!(utf8_text("é✓".as_bytes()), Some("é✓"));
    assert_eq!(utf8_text(&[0x61, 0x00, 0x62]), Some("a\u{0}b"));
}

#[test]
fn bytes_that_are_not_utf8_give_nothing() {
    assert_eq!(utf8_text(&[0xff]), None);
    assert_eq!(utf8_text(&[0x61, 0x80]), None);
    assert_eq!(utf8_text(&[0xc3]), None);
    assert_eq!(utf8_text(&[0xed, 0xa0, 0x80]), None);
    assert_eq!(utf8_text(&[0xc0, 0xaf]), None);
}
