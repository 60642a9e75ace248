use rjvm::text::{
    bit_pattern_text, join2, join3, rendered, signed_to_text, unsigned_to_text,
    unsigned_to_upper_hex, FloatBits,
};

#[test]
fn unsigned_numbers_in_decimal() {
    assert_eq!("0", unsigned_to_text(0));
    assert_eq!("9", unsigned_to_text(9));
    assert_eq!("10", unsigned_to_text(10));
    assert_eq!("65535", unsigned_to_text(65535));
    assert_eq!("18446744073709551615", unsigned_to_text(u64::MAX));
    for n in [1u64, 7, 99, 100, 101, 2023, 4294967296, 1000000007] {
        assert_eq!(n.to_string(), unsigned_to_text(n));
    }
}

#[test]
fn signed_numbers_in_decimal() {
    assert_eq!("0", signed_to_text(0));
    assert_eq!("-1", signed_to_text(-1));
    assert_eq!("-10", signed_to_text(-10));
    assert_eq!("123", signed_to_text(123));
    assert_eq!("-9223372036854775808", signed_to_text(i64::MIN));
    assert_eq!("9223372036854775807", signed_to_text(i64::MAX));
    for n in [-2147483648i64, 2147483647, -99, 42] {
        assert_eq!(n.to_string(), signed_to_text(n));
    }
}

#[test]
fn numbers_in_upper_case_hexadecimal() {
    assert_eq!("0", unsigned_to_upper_hex(0));
    assert_eq!("9", unsigned_to_upper_hex(9));
    assert_eq!("A", unsigned_to_upper_hex(10));
    assert_eq!("F", unsigned_to_upper_hex(15));
    assert_eq!("10", unsigned_to_upper_hex(16));
    assert_eq!("FF", unsigned_to_upper_hex(255));
    assert_eq!("CAFEBABE", unsigned_to_upper_hex(0xCAFEBABE));
    assert_eq!("FFFFFFFFFFFFFFFF", unsigned_to_upper_hex(u64::MAX));
    for n in 0..=255u64 {
        assert_eq!(format!("{:X}", n), unsigned_to_upper_hex(n));
    }
}

#[test]
fn pieces_of_text_are_joined() {
    assert_eq!("ab", join2("a", "b"));
    assert_eq!("a", join2("a", ""));
    assert_eq!("hey.joe", join3("hey", ".", "joe"));
    assert_eq!("", join3("", "", ""));
}

#[test]
fn bit_patterns_in_hexadecimal() {
    assert_eq!("0x40066666", bit_pattern_text(FloatBits::Single(2.1f32.to_bits())));
    assert_eq!("0x0", bit_pattern_text(FloatBits::Double(0)));
    assert_eq!(
        "0xFFFFFFFFFFFFFFFF",
        bit_pattern_text(FloatBits::Double(u64::MAX))
    );
    assert_eq!(
        "0x7FC00000",
        rendered(&bit_pattern_text, FloatBits::Single(0x7FC00000))
    );
}

#[test]
fn a_given_function_renders_the_floats() {
    let render = |n: FloatBits| match n {
        FloatBits::Single(bits) => f32::from_bits(bits).to_string(),
        FloatBits::Double(bits) => f64::from_bits(bits).to_string(),
    };
    assert_eq!("2.1", rendered(&render, FloatBits::Single(2.1f32.to_bits())));
    assert_eq!("3.56", rendered(&render, FloatBits::Double(3.56f64.to_bits())));
    assert_eq!("NaN", rendered(&render, FloatBits::Single(0x7FC00000)));
}
