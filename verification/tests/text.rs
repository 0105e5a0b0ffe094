use optimizely::text::str_eq;

#[test]
fn str_eq_on_equal_and_unequal_slices() {
    assert!(str_eq("", ""));
    assert!(str_eq("buy_button", "buy_button"));
    assert!(!str_eq("buy_button", "buy_buttom"));
    assert!(!str_eq("buy_button", "buy_butto"));
    assert!(!str_eq("", "a"));
    assert!(!str_eq("a", ""));
}

#[test]
fn str_eq_beyond_ascii() {
    assert!(str_eq("üser-日本", "üser-日本"));
    assert!(!str_eq("üser", "user"));
    assert!(!str_eq("é", "e\u{301}"));
}
