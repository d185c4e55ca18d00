use machine_manager_server::text::{append_decimal, byte_list_text, list_text_of, numbers_to_vec, text_contains};

#[test]
fn decimal_text_is_appended() {
    let mut s = String::from("cycle ");
    append_decimal(&mut s, 0);
    assert_eq!(s, "cycle 0");
    let mut t = String::new();
    append_decimal(&mut t, 1234567890);
    assert_eq!(t, "1234567890");
    let mut u = String::new();
    append_decimal(&mut u, u64::MAX);
    assert_eq!(u, u64::MAX.to_string());
}

#[test]
fn text_contains_finds_needles() {
    assert!(text_contains("session with id='a' already exists", "already exists"));
    assert!(text_contains("abc", ""));
    assert!(text_contains("abc", "abc"));
    assert!(!text_contains("abc", "abcd"));
    assert!(!text_contains("", "a"));
    assert!(!text_contains("unexpected session ucycle", "unexpected session cycle"));
    assert!(text_contains("xx unexpected session cycle, current cycle is 3", "unexpected session cycle, current cycle is"));
}

#[test]
fn number_lists_print_as_debug_does() {
    assert_eq!(list_text_of(&[]), "[]");
    assert_eq!(list_text_of(&[7]), "[7]");
    assert_eq!(list_text_of(&[1, 22, 255]), format!("{:?}", [1u64, 22, 255]));
    assert_eq!(byte_list_text(&[0, 9, 10, 255]), format!("{:?}", [0u8, 9, 10, 255]));
    assert_eq!(numbers_to_vec(&[3, 1, 2]), vec![3, 1, 2]);
}
