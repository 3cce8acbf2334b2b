//! Hex encoding of a sampled color: two uppercase digits per channel,
//! concatenated in red-green-blue order, no separator.

use vstd::prelude::*;

verus! {

/// The uppercase hexadecimal digit for a value below sixteen.
pub open spec fn hex_digit_char(v: u8) -> char
    recommends
        v < 16,
{
    if v == 0 {
        '0'
    } else if v == 1 {
        '1'
    } else if v == 2 {
        '2'
    } else if v == 3 {
        '3'
    } else if v == 4 {
        '4'
    } else if v == 5 {
        '5'
    } else if v == 6 {
        '6'
    } else if v == 7 {
        '7'
    } else if v == 8 {
        '8'
    } else if v == 9 {
        '9'
    } else if v == 10 {
        'A'
    } else if v == 11 {
        'B'
    } else if v == 12 {
        'C'
    } else if v == 13 {
        'D'
    } else if v == 14 {
        'E'
    } else {
        'F'
    }
}

/// The two hex digits of one byte, high digit first; a byte below
/// sixteen keeps its leading zero.
pub open spec fn hex_byte_chars(v: u8) -> Seq<char> {
    seq![hex_digit_char(v / 16), hex_digit_char(v % 16)]
}

/// The six-character `RRGGBB` encoding of a color.
pub open spec fn hex_chars(r: u8, g: u8, b: u8) -> Seq<char> {
    hex_byte_chars(r) + hex_byte_chars(g) + hex_byte_chars(b)
}

/// A digit of the encoding: `0` to `9` or uppercase `A` to `F`.
pub open spec fn is_upper_hex_char(c: char) -> bool {
    ('0' <= c && c <= '9') || ('A' <= c && c <= 'F')
}

pub(crate) fn hex_digit_str(v: u8) -> (s: &'static str)
    requires
        v < 16,
    ensures
        s@ =~= seq![hex_digit_char(v)],
{
    proof {
        reveal_strlit("0");
        reveal_strlit("1");
        reveal_strlit("2");
        reveal_strlit("3");
        reveal_strlit("4");
        reveal_strlit("5");
        reveal_strlit("6");
        reveal_strlit("7");
        reveal_strlit("8");
        reveal_strlit("9");
        reveal_strlit("A");
        reveal_strlit("B");
        reveal_strlit("C");
        reveal_strlit("D");
        reveal_strlit("E");
        reveal_strlit("F");
    }
    if v == 0 {
        "0"
    } else if v == 1 {
        "1"
    } else if v == 2 {
        "2"
    } else if v == 3 {
        "3"
    } else if v == 4 {
        "4"
    } else if v == 5 {
        "5"
    } else if v == 6 {
        "6"
    } else if v == 7 {
        "7"
    } else if v == 8 {
        "8"
    } else if v == 9 {
        "9"
    } else if v == 10 {
        "A"
    } else if v == 11 {
        "B"
    } else if v == 12 {
        "C"
    } else if v == 13 {
        "D"
    } else if v == 14 {
        "E"
    } else {
        "F"
    }
}

/// Reformats the rgb values to a hex string.
pub fn convert_to_hex(r: u8, g: u8, b: u8) -> (s: String)
    ensures
        s@ == hex_chars(r, g, b),
{
    let mut s = String::new();
    s.append(hex_digit_str(r / 16));
    s.append(hex_digit_str(r % 16));
    s.append(hex_digit_str(g / 16));
    s.append(hex_digit_str(g % 16));
    s.append(hex_digit_str(b / 16));
    s.append(hex_digit_str(b % 16));
    proof {
        assert(s@ =~= hex_chars(r, g, b));
    }
    s
}

/// Law: every color encodes to exactly six uppercase hexadecimal
/// characters, two zero-padded digits per channel, red first, then
/// green, then blue.
pub proof fn lemma_hex_chars_form(r: u8, g: u8, b: u8)
    ensures
        hex_chars(r, g, b).len() == 6,
        forall|i: int| 0 <= i < 6 ==> is_upper_hex_char(#[trigger] hex_chars(r, g, b)[i]),
        hex_chars(r, g, b).subrange(0, 2) =~= hex_byte_chars(r),
        hex_chars(r, g, b).subrange(2, 4) =~= hex_byte_chars(g),
        hex_chars(r, g, b).subrange(4, 6) =~= hex_byte_chars(b),
{
    assert forall|v: u8| v < 16 implies is_upper_hex_char(hex_digit_char(v)) by {}
}

} // verus!
