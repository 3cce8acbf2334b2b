//! The two console lines a sample produces.
//!
//! A sample is reported as its decimal triple and its hex encoding:
//!
//! ```text
//! Pixel color RGB: (R, G, B)
//! Pixel color Hex: #RRGGBB
//! ```
//!
//! The decimal rendering of a channel value carries no leading zeros
//! and no sign, one to three digits.

use crate::hex::{hex_chars, hex_digit_char, hex_digit_str};
use vstd::prelude::*;

verus! {

/// The decimal digits of a channel value, most significant first, no
/// leading zeros.
pub open spec fn dec_chars(v: u8) -> Seq<char> {
    if v < 10 {
        seq![hex_digit_char(v)]
    } else if v < 100 {
        seq![hex_digit_char(v / 10), hex_digit_char(v % 10)]
    } else {
        seq![hex_digit_char(v / 100), hex_digit_char((v / 10) % 10), hex_digit_char(v % 10)]
    }
}

/// The full decimal report line for one sample.
pub open spec fn rgb_line_chars(r: u8, g: u8, b: u8) -> Seq<char> {
    "Pixel color RGB: ("@ + dec_chars(r) + ", "@ + dec_chars(g) + ", "@ + dec_chars(b) + ")"@
}

/// The full hex report line for one sample.
pub open spec fn hex_line_chars(r: u8, g: u8, b: u8) -> Seq<char> {
    "Pixel color Hex: #"@ + hex_chars(r, g, b)
}

/// Renders a channel value in decimal, without leading zeros.
pub fn dec_u8(v: u8) -> (s: String)
    ensures
        s@ == dec_chars(v),
{
    let mut s = String::new();
    if v >= 100 {
        s.append(hex_digit_str(v / 100));
        s.append(hex_digit_str((v / 10) % 10));
        s.append(hex_digit_str(v % 10));
    } else if v >= 10 {
        s.append(hex_digit_str(v / 10));
        s.append(hex_digit_str(v % 10));
    } else {
        s.append(hex_digit_str(v));
    }
    proof {
        assert(s@ =~= dec_chars(v));
    }
    s
}

/// Builds the `Pixel color RGB: (R, G, B)` line for one sample.
pub fn format_rgb_line(r: u8, g: u8, b: u8) -> (s: String)
    ensures
        s@ == rgb_line_chars(r, g, b),
{
    let mut s = String::from_str("Pixel color RGB: (");
    s.append(dec_u8(r).as_str());
    s.append(", ");
    s.append(dec_u8(g).as_str());
    s.append(", ");
    s.append(dec_u8(b).as_str());
    s.append(")");
    proof {
        assert(s@ =~= rgb_line_chars(r, g, b));
    }
    s
}

/// Builds the `Pixel color Hex: #RRGGBB` line for one sample.
pub fn format_hex_line(r: u8, g: u8, b: u8) -> (s: String)
    ensures
        s@ == hex_line_chars(r, g, b),
{
    let mut s = String::from_str("Pixel color Hex: #");
    s.append(crate::hex::convert_to_hex(r, g, b).as_str());
    proof {
        assert(s@ =~= hex_line_chars(r, g, b));
    }
    s
}

} // verus!
