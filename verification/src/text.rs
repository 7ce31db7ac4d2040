//! Text as the messages and names of this layer are built from it: decimal
//! numbers, single characters, and the ASCII case of a letter.
use vstd::prelude::*;

verus! {

/// The character for one decimal digit.
pub open spec fn digit_char(d: int) -> char
    recommends
        0 <= d < 10,
{
    (d + 48) as char
}

/// The decimal digits of a natural number, most significant first, with no
/// leading zero (zero itself is written as one digit).
pub open spec fn digits(n: nat) -> Seq<char>
    decreases n,
{
    if n < 10 {
        seq![digit_char(n as int)]
    } else {
        digits(n / 10).push(digit_char((n % 10) as int))
    }
}

/// An integer as it is written in decimal: a minus sign before the digits of
/// a negative one.
pub open spec fn decimal(n: int) -> Seq<char> {
    if n < 0 {
        seq!['-'] + digits((-n) as nat)
    } else {
        digits(n as nat)
    }
}

/// Whether a character is an ASCII capital letter.
pub open spec fn is_upper(c: char) -> bool {
    'A' <= c && c <= 'Z'
}

/// Whether a character is an ASCII small letter.
pub open spec fn is_lower(c: char) -> bool {
    'a' <= c && c <= 'z'
}

/// The small letter of an ASCII capital, and any other character as it is.
pub open spec fn lower(c: char) -> char {
    if is_upper(c) { ((c as u32) + 32) as char } else { c }
}

/// The capital of an ASCII small letter, and any other character as it is.
pub open spec fn upper(c: char) -> char {
    if is_lower(c) { ((c as u32) - 32) as char } else { c }
}

/// A string with one character added at its end.
///
/// Calls `String::push`, which appends the character to the string.
#[verifier::external_body]
pub(crate) fn push_char(s: &mut String, c: char)
    ensures
        final(s)@ == old(s)@.push(c),
{
    s.push(c);
}

/// The small letter of an ASCII capital, and any other character unchanged.
pub fn lower_char(c: char) -> (r: char)
    ensures
        r == lower(c),
{
    if 'A' <= c && c <= 'Z' {
        let b: u8 = c as u8;
        let r: char = (b + 32) as char;
        assert(r as u32 == c as u32 + 32);
        r
    } else {
        c
    }
}

/// The capital of an ASCII small letter, and any other character unchanged.
pub fn upper_char(c: char) -> (r: char)
    ensures
        r == upper(c),
{
    if 'a' <= c && c <= 'z' {
        let b: u8 = c as u8;
        let r: char = (b - 32) as char;
        assert(r as u32 == c as u32 - 32);
        r
    } else {
        c
    }
}

/// Append the decimal digits of `n` to `s`.
pub fn push_digits(s: &mut String, n: u64)
    ensures
        final(s)@ == old(s)@ + digits(n as nat),
    decreases n,
{
    if n < 10 {
        let d: u8 = n as u8;
        let c: char = (d + 48) as char;
        push_char(s, c);
        assert(old(s)@.push(c) =~= old(s)@ + digits(n as nat));
    } else {
        push_digits(s, n / 10);
        let d: u8 = (n % 10) as u8;
        let c: char = (d + 48) as char;
        push_char(s, c);
        assert(digits(n as nat) == digits((n / 10) as nat).push(digit_char((n % 10) as int)));
        assert(s@ =~= old(s)@ + digits(n as nat));
    }
}

/// Append an integer, as it is written in decimal, to `s`.
pub fn push_decimal(s: &mut String, n: i64)
    ensures
        final(s)@ == old(s)@ + decimal(n as int),
{
    if n < 0 {
        push_char(s, '-');
        let magnitude: u64 = if n == i64::MIN {
            9223372036854775808u64
        } else {
            (-n) as u64
        };
        push_digits(s, magnitude);
        assert(s@ =~= old(s)@ + decimal(n as int));
    } else {
        push_digits(s, n as u64);
    }
}

/// An integer written in decimal.
pub fn decimal_text(n: i64) -> (r: String)
    ensures
        r@ == decimal(n as int),
{
    let mut s = String::new();
    push_decimal(&mut s, n);
    assert(s@ =~= decimal(n as int));
    s
}

} // verus!
