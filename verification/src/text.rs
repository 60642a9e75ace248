//! Text rendering of integers, done with integer arithmetic only, and the
//! way in which the texts of floating-point constants come in.

use vstd::prelude::*;

verus! {

/// The character for one digit: `0` to `9`, then `A` to `F`.
pub open spec fn digit_char(d: int) -> char
    recommends
        0 <= d < 16,
{
    if d < 10 {
        (48 + d) as char
    } else {
        (55 + d) as char
    }
}

/// Decimal digits of a natural number, most significant first, without
/// leading zeros; zero is the single digit `0`.
pub open spec fn decimal_digits(n: nat) -> Seq<char>
    decreases n,
{
    if n < 10 {
        seq![digit_char(n as int)]
    } else {
        decimal_digits(n / 10).push(digit_char((n % 10) as int))
    }
}

/// Decimal text of an integer: a minus sign for negative numbers, then the
/// decimal digits of the magnitude.
pub open spec fn decimal_text(n: int) -> Seq<char> {
    if n < 0 {
        seq!['-'] + decimal_digits((-n) as nat)
    } else {
        decimal_digits(n as nat)
    }
}

/// Upper-case hexadecimal digits of a natural number, most significant
/// first, without leading zeros.
pub open spec fn upper_hex_digits(n: nat) -> Seq<char>
    decreases n,
{
    if n < 16 {
        seq![digit_char(n as int)]
    } else {
        upper_hex_digits(n / 16).push(digit_char((n % 16) as int))
    }
}

/// The one-character string of a digit.
fn digit_str(d: u8) -> (r: &'static str)
    requires
        d < 16,
    ensures
        r@ == seq![digit_char(d as int)],
{
    proof {
        reveal_strlit("0");
        reveal_strlit("1");
        reveal_strlit("2");
        reveal_strlit("3");
        reveal_strlit("4");
        reveal_strlit("5");
        reveal_strlit("6");
        reveal_strlit("7");
        reveal_strlit("8");
        reveal_strlit("9");
        reveal_strlit("A");
        reveal_strlit("B");
        reveal_strlit("C");
        reveal_strlit("D");
        reveal_strlit("E");
        reveal_strlit("F");
    }
    match d {
        0 => "0",
        1 => "1",
        2 => "2",
        3 => "3",
        4 => "4",
        5 => "5",
        6 => "6",
        7 => "7",
        8 => "8",
        9 => "9",
        10 => "A",
        11 => "B",
        12 => "C",
        13 => "D",
        14 => "E",
        _ => "F",
    }
}

/// Renders an unsigned number in decimal.
pub fn unsigned_to_text(n: u64) -> (text: String)
    ensures
        text@ == decimal_digits(n as nat),
    decreases n,
{
    if n < 10 {
        let text = String::from_str(digit_str(n as u8));
        text
    } else {
        let mut text = unsigned_to_text(n / 10);
        let ghost head = text@;
        text.append(digit_str((n % 10) as u8));
        assert(text@ =~= head.push(digit_char((n % 10) as int)));
        text
    }
}

/// Renders a signed number in decimal.
pub fn signed_to_text(n: i64) -> (text: String)
    ensures
        text@ == decimal_text(n as int),
{
    if n < 0 {
        // The magnitude of the least value does not fit the signed type.
        let magnitude: u64 = ((-(n + 1)) as u64) + 1;
        let mut text = String::from_str("-");
        proof {
            reveal_strlit("-");
        }
        let digits = unsigned_to_text(magnitude);
        text.append(digits.as_str());
        assert(text@ =~= seq!['-'] + decimal_digits((-n) as nat));
        text
    } else {
        unsigned_to_text(n as u64)
    }
}

/// Renders a number in upper-case hexadecimal.
pub fn unsigned_to_upper_hex(n: u64) -> (text: String)
    ensures
        text@ == upper_hex_digits(n as nat),
    decreases n,
{
    if n < 16 {
        let text = String::from_str(digit_str(n as u8));
        text
    } else {
        let mut text = unsigned_to_upper_hex(n / 16);
        let ghost head = text@;
        text.append(digit_str((n % 16) as u8));
        assert(text@ =~= head.push(digit_char((n % 16) as int)));
        text
    }
}

/// Concatenates two pieces of text.
pub fn join2(a: &str, b: &str) -> (text: String)
    ensures
        text@ == a@ + b@,
{
    let mut text = String::from_str(a);
    text.append(b);
    text
}

/// Concatenates three pieces of text.
pub fn join3(a: &str, b: &str, c: &str) -> (text: String)
    ensures
        text@ == a@ + b@ + c@,
{
    let mut text = String::from_str(a);
    text.append(b);
    text.append(c);
    text
}

/// The bit pattern of a floating-point constant, in IEEE 754 single or
/// double precision. The library carries such a constant as its bits and
/// never computes with it.
#[derive(Debug, Clone, Copy, PartialEq, Eq, Structural)]
pub enum FloatBits {
    Single(u32),
    Double(u64),
}

/// The texts of floating-point constants: for every bit pattern one text.
pub type NumberTexts = spec_fn(FloatBits) -> Seq<char>;

/// Whether a function can serve to render floating-point constants: it
/// takes every bit pattern, and the text it gives depends on the bit
/// pattern alone.
///
/// The library does no floating-point arithmetic, so the decimal text of a
/// floating-point constant has to come from its caller, as a function of
/// this kind. What the library promises of a text that holds such a
/// constant, it promises in terms of what that function gives.
pub open spec fn renders<F: Fn(FloatBits) -> String>(render: F) -> bool {
    &&& forall|n: FloatBits| call_requires(render, (n,))
    &&& forall|n: FloatBits, a: String, b: String|
        call_ensures(render, (n,), a) && call_ensures(render, (n,), b) ==> a@ == b@
}

/// The text that a rendering function gives for a bit pattern: that of any
/// of its results, which all hold the same text where the function
/// `renders`.
pub open spec fn number_text<F: Fn(FloatBits) -> String>(render: F, n: FloatBits) -> Seq<char> {
    (choose|text: String| call_ensures(render, (n,), text))@
}

/// The texts of all floating-point constants, as a rendering function
/// gives them.
pub open spec fn number_texts<F: Fn(FloatBits) -> String>(render: F) -> NumberTexts {
    |n: FloatBits| number_text(render, n)
}

/// Renders a floating-point constant with the given function.
pub fn rendered<F: Fn(FloatBits) -> String>(render: &F, n: FloatBits) -> (text: String)
    requires
        renders(*render),
    ensures
        text@ == number_texts(*render)(n),
{
    render(n)
}

/// The text of a bit pattern in hexadecimal, such as `0x40066666`.
pub open spec fn bit_pattern(n: FloatBits) -> Seq<char> {
    match n {
        FloatBits::Single(bits) => "0x"@ + upper_hex_digits(bits as nat),
        FloatBits::Double(bits) => "0x"@ + upper_hex_digits(bits as nat),
    }
}

/// Renders a floating-point constant as its bit pattern in hexadecimal:
/// exact, and free of floating-point arithmetic.
pub fn bit_pattern_text(n: FloatBits) -> (text: String)
    ensures
        text@ == bit_pattern(n),
{
    let digits = match n {
        FloatBits::Single(bits) => unsigned_to_upper_hex(bits as u64),
        FloatBits::Double(bits) => unsigned_to_upper_hex(bits),
    };
    join2("0x", digits.as_str())
}

} // verus!
