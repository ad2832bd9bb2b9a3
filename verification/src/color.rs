//! Theme colors written as `#rrggbb` text.

use vstd::prelude::*;

use crate::text::{chars_of, spec_trim, sub_chars, trim_chars};

verus! {

/// The text after trimming and dropping one leading `#`.
pub open spec fn spec_hex_text(s: Seq<char>) -> Seq<char> {
    let t = spec_trim(s);
    if t.len() > 0 && t[0] == '#' {
        t.drop_first()
    } else {
        t
    }
}

/// The value of one hexadecimal digit.
pub open spec fn spec_hex_digit(c: char) -> Option<u8> {
    if '0' <= c <= '9' {
        Some((c as u32 - '0' as u32) as u8)
    } else if 'a' <= c <= 'f' {
        Some((c as u32 - 'a' as u32 + 10) as u8)
    } else if 'A' <= c <= 'F' {
        Some((c as u32 - 'A' as u32 + 10) as u8)
    } else {
        None
    }
}

/// Two hexadecimal digits as one byte, high digit first.
pub open spec fn spec_hex_pair(a: char, b: char) -> Option<u8> {
    match (spec_hex_digit(a), spec_hex_digit(b)) {
        (Some(x), Some(y)) => Some((16 * x + y) as u8),
        _ => None,
    }
}

/// `#RRGGBB` or `RRGGBB` as red, green and blue: the first six characters after the
/// optional `#` must be hexadecimal digits (anything after them is ignored); any other text
/// is no color.
pub open spec fn spec_parse_hex(s: Seq<char>) -> Option<(u8, u8, u8)> {
    let h = spec_hex_text(s);
    if h.len() < 6 {
        None
    } else {
        match (spec_hex_pair(h[0], h[1]), spec_hex_pair(h[2], h[3]), spec_hex_pair(h[4], h[5])) {
            (Some(r), Some(g), Some(b)) => Some((r, g, b)),
            _ => None,
        }
    }
}

fn hex_text(s: &str) -> (r: Vec<char>)
    ensures
        r@ == spec_hex_text(s@),
{
    let t = trim_chars(&chars_of(s));
    if t.len() > 0 && t[0] == '#' {
        let h = sub_chars(&t, 1, t.len());
        assert(h@ =~= t@.drop_first());
        h
    } else {
        t
    }
}

fn hex_digit(c: char) -> (r: Option<u8>)
    ensures
        r == spec_hex_digit(c),
{
    if '0' <= c && c <= '9' {
        Some((c as u32 - '0' as u32) as u8)
    } else if 'a' <= c && c <= 'f' {
        Some((c as u32 - 'a' as u32 + 10) as u8)
    } else if 'A' <= c && c <= 'F' {
        Some((c as u32 - 'A' as u32 + 10) as u8)
    } else {
        None
    }
}

fn hex_pair(a: char, b: char) -> (r: Option<u8>)
    ensures
        r == spec_hex_pair(a, b),
{
    match (hex_digit(a), hex_digit(b)) {
        (Some(x), Some(y)) => Some(16 * x + y),
        _ => None,
    }
}

/// Parse `#RRGGBB` or `RRGGBB` (surrounding whitespace ignored; the first six hex digits
/// are used when the text is longer) into red, green and blue; `None` for invalid text.
pub fn parse_hex(s: &str) -> (r: Option<(u8, u8, u8)>)
    ensures
        r == spec_parse_hex(s@),
{
    let h = hex_text(s);
    if h.len() < 6 {
        return None;
    }
    match (hex_pair(h[0], h[1]), hex_pair(h[2], h[3]), hex_pair(h[4], h[5])) {
        (Some(r), Some(g), Some(b)) => Some((r, g, b)),
        _ => None,
    }
}

} // verus!
