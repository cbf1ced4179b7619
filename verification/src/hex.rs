//! Upper-case hexadecimal text for bytes and addresses.
//!
//! A byte is written as two digits, an address as four, most significant
//! digit first, with the letters `A` to `F` in upper case.

use vstd::prelude::*;
use vstd::string::*;

verus! {

/// True for the sixteen characters `0`-`9` and `A`-`F`.
pub open spec fn is_hex_digit(c: char) -> bool {
    ('0' <= c && c <= '9') || ('A' <= c && c <= 'F')
}

/// The digit that writes `n`, for `n` below sixteen.
pub open spec fn digit_char(n: int) -> char
    recommends
        0 <= n < 16,
{
    if n < 10 {
        ('0' as int + n) as char
    } else {
        ('A' as int + n - 10) as char
    }
}

/// The number that the digit `c` writes.
pub open spec fn digit_value(c: char) -> int
    recommends
        is_hex_digit(c),
{
    if c <= '9' {
        c as int - '0' as int
    } else {
        c as int - 'A' as int + 10
    }
}

/// True when every character of `s` is an upper-case hexadecimal digit.
pub open spec fn is_hex_text(s: Seq<char>) -> bool {
    forall|i: int| 0 <= i < s.len() ==> is_hex_digit(#[trigger] s[i])
}

/// The two digits of a byte.
pub open spec fn byte_text(b: u8) -> Seq<char> {
    seq![digit_char(b as int / 16), digit_char(b as int % 16)]
}

/// The four digits of an address.
pub open spec fn address_text(a: u16) -> Seq<char> {
    seq![
        digit_char(a as int / 4096),
        digit_char(a as int / 256 % 16),
        digit_char(a as int / 16 % 16),
        digit_char(a as int % 16),
    ]
}

/// The byte that `s` writes: `s` must be exactly two upper-case digits.
pub open spec fn text_byte(s: Seq<char>) -> Option<u8> {
    if s.len() == 2 && is_hex_digit(s[0]) && is_hex_digit(s[1]) {
        Some((16 * digit_value(s[0]) + digit_value(s[1])) as u8)
    } else {
        None
    }
}

/// Every number below sixteen has a digit, and the digit gives the number back.
pub proof fn digit_round_trip(n: int)
    requires
        0 <= n < 16,
    ensures
        is_hex_digit(digit_char(n)),
        digit_value(digit_char(n)) == n,
{
}

/// Every digit stands for a number below sixteen and is the digit of that number.
pub proof fn digit_value_in_range(c: char)
    requires
        is_hex_digit(c),
    ensures
        0 <= digit_value(c) < 16,
        digit_char(digit_value(c)) == c,
{
}

/// The text of a byte is two valid digits and reads back as that byte.
pub proof fn byte_text_round_trip(b: u8)
    ensures
        byte_text(b).len() == 2,
        is_hex_text(byte_text(b)),
        text_byte(byte_text(b)) == Some(b),
{
    digit_round_trip(b as int / 16);
    digit_round_trip(b as int % 16);
}

/// A text that reads as a byte is the text of that byte: no byte has two spellings.
pub proof fn text_byte_is_canonical(s: Seq<char>)
    requires
        text_byte(s) is Some,
    ensures
        s == byte_text(text_byte(s)->0),
{
    digit_value_in_range(s[0]);
    digit_value_in_range(s[1]);
    assert(s =~= byte_text(text_byte(s)->0));
}

/// The text of an address is four valid digits, and different addresses have
/// different texts.
pub proof fn address_text_is_injective(a: u16, b: u16)
    ensures
        address_text(a).len() == 4,
        is_hex_text(address_text(a)),
        address_text(a) == address_text(b) ==> a == b,
{
    let (a3, a2, a1, a0) = (a as int / 4096, a as int / 256 % 16, a as int / 16 % 16, a as int % 16);
    let (b3, b2, b1, b0) = (b as int / 4096, b as int / 256 % 16, b as int / 16 % 16, b as int % 16);
    nibbles_rebuild(a);
    nibbles_rebuild(b);
    digit_round_trip(a3);
    digit_round_trip(a2);
    digit_round_trip(a1);
    digit_round_trip(a0);
    digit_round_trip(b3);
    digit_round_trip(b2);
    digit_round_trip(b1);
    digit_round_trip(b0);
    if address_text(a) == address_text(b) {
        assert(digit_char(a3) == digit_char(b3)) by {
            assert(address_text(a)[0] == address_text(b)[0]);
        }
        assert(digit_char(a2) == digit_char(b2)) by {
            assert(address_text(a)[1] == address_text(b)[1]);
        }
        assert(digit_char(a1) == digit_char(b1)) by {
            assert(address_text(a)[2] == address_text(b)[2]);
        }
        assert(digit_char(a0) == digit_char(b0)) by {
            assert(address_text(a)[3] == address_text(b)[3]);
        }
        assert(a3 == b3 && a2 == b2 && a1 == b1 && a0 == b0);
    }
}

/// An address is the sum of its four nibbles, each below sixteen, weighted by
/// powers of sixteen.
proof fn nibbles_rebuild(a: u16)
    ensures
        0 <= a as int / 4096 < 16,
        0 <= a as int / 256 % 16 < 16,
        0 <= a as int / 16 % 16 < 16,
        0 <= a as int % 16 < 16,
        a as int == 4096 * (a as int / 4096) + 256 * (a as int / 256 % 16) + 16 * (a as int / 16
            % 16) + a as int % 16,
{
    assert(a / 4096 < 16 && a / 256 % 16 < 16 && a / 16 % 16 < 16 && a % 16 < 16 && a == 4096 * (a
        / 4096) + 256 * (a / 256 % 16) + 16 * (a / 16 % 16) + a % 16) by (bit_vector);
}

/// Tells whether `c` is an upper-case hexadecimal digit.
pub fn is_digit(c: char) -> (ok: bool)
    ensures
        ok == is_hex_digit(c),
{
    ('0' <= c && c <= '9') || ('A' <= c && c <= 'F')
}

/// The characters of `s`, in order.
pub fn chars_of(s: &str) -> (chars: Vec<char>)
    ensures
        chars@ == s@,
{
    let mut chars: Vec<char> = Vec::new();
    for c in it: s.chars()
        invariant
            it.seq() == s@,
            chars@ == s@.take(it.index()),
    {
        chars.push(c);
    }
    chars
}

/// Tells whether `s` holds nothing but the digits `0`-`9` and `A`-`F`.
pub fn is_valid_hex(s: &str) -> (ok: bool)
    ensures
        ok == is_hex_text(s@),
{
    let chars = chars_of(s);
    let mut i: usize = 0;
    while i < chars.len()
        invariant
            i <= chars.len(),
            chars@ == s@,
            forall|j: int| 0 <= j < i ==> is_hex_digit(#[trigger] s@[j]),
        decreases chars.len() - i,
    {
        if !is_digit(chars[i]) {
            return false;
        }
        i += 1;
    }
    true
}

/// The one-character text of the digit for `n`.
fn digit_str(n: u8) -> (s: &'static str)
    requires
        n < 16,
    ensures
        s@ == seq![digit_char(n as int)],
{
    proof {
        reveal_strlit("0");
        reveal_strlit("1");
        reveal_strlit("2");
        reveal_strlit("3");
        reveal_strlit("4");
        reveal_strlit("5");
        reveal_strlit("6");
        reveal_strlit("7");
        reveal_strlit("8");
        reveal_strlit("9");
        reveal_strlit("A");
        reveal_strlit("B");
        reveal_strlit("C");
        reveal_strlit("D");
        reveal_strlit("E");
        reveal_strlit("F");
    }
    let s = match n {
        0 => "0",
        1 => "1",
        2 => "2",
        3 => "3",
        4 => "4",
        5 => "5",
        6 => "6",
        7 => "7",
        8 => "8",
        9 => "9",
        10 => "A",
        11 => "B",
        12 => "C",
        13 => "D",
        14 => "E",
        _ => "F",
    };
    assert(s@ =~= seq![digit_char(n as int)]);
    s
}

/// Writes a byte as two upper-case hexadecimal digits.
pub fn encode_byte(b: u8) -> (text: String)
    ensures
        text@ == byte_text(b),
        text@.len() == 2,
        is_hex_text(text@),
{
    let mut text = String::from_str(digit_str(b / 16));
    text.append(digit_str(b % 16));
    proof {
        byte_text_round_trip(b);
        assert(text@ =~= byte_text(b));
    }
    text
}

/// Writes an address as four upper-case hexadecimal digits.
pub fn encode_address(a: u16) -> (text: String)
    ensures
        text@ == address_text(a),
        text@.len() == 4,
        is_hex_text(text@),
{
    let d3: u8 = (a / 4096) as u8;
    let d2: u8 = (a / 256 % 16) as u8;
    let d1: u8 = (a / 16 % 16) as u8;
    let d0: u8 = (a % 16) as u8;
    let mut text = String::from_str(digit_str(d3));
    text.append(digit_str(d2));
    text.append(digit_str(d1));
    text.append(digit_str(d0));
    proof {
        address_text_is_injective(a, a);
        assert(text@ =~= address_text(a));
    }
    text
}

/// Reads two upper-case hexadecimal digits as a byte; any other text is refused.
pub fn decode_byte(s: &str) -> (byte: Option<u8>)
    ensures
        byte == text_byte(s@),
{
    let chars = chars_of(s);
    if chars.len() != 2 {
        return None;
    }
    let high = chars[0];
    let low = chars[1];
    if !is_digit(high) || !is_digit(low) {
        return None;
    }
    Some(16 * digit_of(high) + digit_of(low))
}

/// The number below sixteen that a digit writes.
fn digit_of(c: char) -> (n: u8)
    requires
        is_hex_digit(c),
    ensures
        n == digit_value(c),
        n < 16,
{
    if c <= '9' {
        (c as u32 - '0' as u32) as u8
    } else {
        (c as u32 - 'A' as u32 + 10) as u8
    }
}

} // verus!
