use smartcropper::naming::{decimal, fallback_name, output_name, FALLBACK_DIGITS};

#[test]
fn decimal_writes_the_digits() {
    assert_eq!(decimal(0), "0");
    assert_eq!(decimal(7), "7");
    assert_eq!(decimal(10), "10");
    assert_eq!(decimal(4096), "4096");
    assert_eq!(decimal(1234567890), "1234567890");
    assert_eq!(decimal(usize::MAX), format!("{}", usize::MAX));
}

#[test]
fn fallback_name_is_padded_with_zeros() {
    assert_eq!(FALLBACK_DIGITS, 4);
    assert_eq!(fallback_name(0), "0000.png");
    assert_eq!(fallback_name(7), "0007.png");
    assert_eq!(fallback_name(42), "0042.png");
    assert_eq!(fallback_name(999), "0999.png");
    assert_eq!(fallback_name(1000), "1000.png");
    assert_eq!(fallback_name(9999), "9999.png");
}

#[test]
fn fallback_name_grows_with_the_index() {
    assert_eq!(fallback_name(10000), "10000.png");
    assert_eq!(fallback_name(1234567), "1234567.png");
}

#[test]
fn output_keeps_the_base_name() {
    assert_eq!(output_name(Some(String::from("portrait.jpg")), 3), "portrait.jpg");
    assert_eq!(output_name(Some(String::from("Üb er.PNG")), 0), "Üb er.PNG");
}

#[test]
fn output_without_a_base_name_is_numbered() {
    assert_eq!(output_name(None, 3), "0003.png");
    assert_eq!(output_name(Some(String::new()), 12), "0012.png");
}
