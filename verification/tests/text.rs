use dragonos::text::{append_bool, append_decimal, decimal};

#[test]
fn decimal_forms() {
    assert_eq!(decimal(0), "0");
    assert_eq!(decimal(9), "9");
    assert_eq!(decimal(10), "10");
    assert_eq!(decimal(1234567890), "1234567890");
    assert_eq!(decimal(usize::MAX), usize::MAX.to_string());
}

#[test]
fn forms_are_appended() {
    let mut text = String::from("n=");
    append_decimal(&mut text, 105);
    append_bool(&mut text, true);
    append_bool(&mut text, false);
    assert_eq!(text, "n=105truefalse");
}
