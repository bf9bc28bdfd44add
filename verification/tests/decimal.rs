use ansi_converter::decimal::{digit, push_decimal};

#[test]
fn digits_are_the_characters_from_0_to_9() {
    assert_eq!(digit(0), '0');
    assert_eq!(digit(5), '5');
    assert_eq!(digit(9), '9');
}

#[test]
fn decimal_text_has_no_leading_zeros() {
    let mut out = String::from("x");
    push_decimal(&mut out, 0);
    assert_eq!(out, "x0");
    push_decimal(&mut out, 7);
    push_decimal(&mut out, 10);
    push_decimal(&mut out, 99);
    push_decimal(&mut out, 100);
    push_decimal(&mut out, 105);
    push_decimal(&mut out, 255);
    assert_eq!(out, "x071099100105255");
}
