use connection_models::text::u16_to_string;

#[test]
fn decimal_single_digits() {
    assert_eq!(u16_to_string(0), "0");
    assert_eq!(u16_to_string(7), "7");
    assert_eq!(u16_to_string(9), "9");
}

#[test]
fn decimal_multi_digits() {
    assert_eq!(u16_to_string(10), "10");
    assert_eq!(u16_to_string(443), "443");
    assert_eq!(u16_to_string(8080), "8080");
    assert_eq!(u16_to_string(10000), "10000");
    assert_eq!(u16_to_string(65535), "65535");
}
