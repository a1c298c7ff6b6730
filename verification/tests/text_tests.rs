use php_ext_pqcrypto::text::{decimal_string, length_message_string, same_text};

#[test]
fn decimal_rendering() {
    assert_eq!(decimal_string(0), "0");
    assert_eq!(decimal_string(7), "7");
    assert_eq!(decimal_string(10), "10");
    assert_eq!(decimal_string(1312), "1312");
    assert_eq!(decimal_string(49856), "49856");
    assert_eq!(decimal_string(usize::MAX), usize::MAX.to_string());
}

#[test]
fn length_messages() {
    assert_eq!(
        length_message_string("Invalid seed length", 64, 5),
        "Invalid seed length: expected 64, got 5"
    );
}

#[test]
fn text_comparison() {
    assert!(same_text("fast", "fast"));
    assert!(!same_text("fast", "Fast"));
    assert!(!same_text("", "f"));
}
