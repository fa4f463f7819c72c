use basiccli::utils::text::{
    decimal_string, push_centered, push_fixed_digits, push_fixed_point, push_octal,
    push_padded_right, push_repeated, round_div_u128, shift_right_decimal,
};

#[test]
fn decimal_numerals() {
    assert_eq!(decimal_string(0), "0");
    assert_eq!(decimal_string(7), "7");
    assert_eq!(decimal_string(10), "10");
    assert_eq!(decimal_string(1_234_567_890), "1234567890");
    assert_eq!(decimal_string(u128::MAX), u128::MAX.to_string());
}

#[test]
fn octal_numerals() {
    let mut s = String::new();
    push_octal(&mut s, 0);
    s.push(' ');
    push_octal(&mut s, 8);
    s.push(' ');
    push_octal(&mut s, 0o755);
    s.push(' ');
    push_octal(&mut s, u32::MAX);
    assert_eq!(s, format!("0 10 755 {:o}", u32::MAX));
}

#[test]
fn fixed_digits_pad_and_cut() {
    let mut s = String::new();
    push_fixed_digits(&mut s, 42, 5);
    s.push('|');
    push_fixed_digits(&mut s, 123_456, 3);
    s.push('|');
    push_fixed_digits(&mut s, 9, 0);
    assert_eq!(s, "00042|456|");
}

#[test]
fn fixed_point_places() {
    let mut s = String::new();
    push_fixed_point(&mut s, 12_345, 2);
    s.push(' ');
    push_fixed_point(&mut s, 5, 2);
    s.push(' ');
    push_fixed_point(&mut s, 1_000_000_001, 9);
    s.push(' ');
    push_fixed_point(&mut s, 0, 6);
    assert_eq!(s, "123.45 0.05 1.000000001 0.000000");
}

#[test]
fn rounding_division_rounds_halves_up() {
    assert_eq!(round_div_u128(14, 10), 1);
    assert_eq!(round_div_u128(15, 10), 2);
    assert_eq!(round_div_u128(16, 10), 2);
    assert_eq!(round_div_u128(0, 3), 0);
    assert_eq!(round_div_u128(1, 3), 0);
    assert_eq!(round_div_u128(2, 3), 1);
    assert_eq!(round_div_u128(7, 1), 7);
    assert_eq!(shift_right_decimal(123_456, 3), 123);
    assert_eq!(shift_right_decimal(123_456, 0), 123_456);
    assert_eq!(shift_right_decimal(5, 40), 0);
}

#[test]
fn padding_and_centring_match_the_standard_formatter() {
    for text in ["", "a", "ab", "hello", "exactly ten", "longer than the field"] {
        let mut left = String::new();
        push_padded_right(&mut left, text, 10);
        assert_eq!(left, format!("{:10}", text));
        let mut middle = String::new();
        push_centered(&mut middle, text, 10);
        assert_eq!(middle, format!("{:^10}", text));
        let mut odd = String::new();
        push_centered(&mut odd, text, 9);
        assert_eq!(odd, format!("{:^9}", text));
    }
    let mut wide = String::new();
    push_padded_right(&mut wide, "μs", 4);
    assert_eq!(wide, "μs  ");
    let mut stars = String::from("x");
    push_repeated(&mut stars, '*', 3);
    push_repeated(&mut stars, '-', 0);
    assert_eq!(stars, "x***");
}
