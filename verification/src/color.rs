use vstd::prelude::*;

use crate::text::{ascii_lower_seq, chars_of, str_eq, to_ascii_lowercase, trim, trimmed};

verus! {

/// A terminal colour, as the theme names it.
#[derive(Debug, Clone, Copy, PartialEq, Eq, Structural)]
pub enum TermColor {
    Reset,
    Black,
    Red,
    Green,
    Yellow,
    Blue,
    Magenta,
    Cyan,
    Gray,
    DarkGray,
    White,
    Rgb(u8, u8, u8),
}

/// The value of a hexadecimal digit.
pub open spec fn hex_digit(c: char) -> Option<int> {
    if '0' <= c <= '9' {
        Some(c as int - '0' as int)
    } else if 'a' <= c <= 'f' {
        Some(c as int - 'a' as int + 10)
    } else if 'A' <= c <= 'F' {
        Some(c as int - 'A' as int + 10)
    } else {
        None
    }
}

/// What `u8::from_str_radix(_, 16)` gives for a text of two characters: two
/// hexadecimal digits, or `+` and one.
pub open spec fn hex_pair(a: char, b: char) -> Option<u8> {
    match (hex_digit(a), hex_digit(b)) {
        (Some(x), Some(y)) => Some((x * 16 + y) as u8),
        (None, Some(y)) => if a == '+' {
            Some(y as u8)
        } else {
            None
        },
        _ => None,
    }
}

/// Six characters read as three hexadecimal pairs.
pub open spec fn rgb_of(h: Seq<char>) -> Option<(u8, u8, u8)> {
    if h.len() == 6 {
        match (hex_pair(h[0], h[1]), hex_pair(h[2], h[3]), hex_pair(h[4], h[5])) {
            (Some(r), Some(g), Some(b)) => Some((r, g, b)),
            _ => None,
        }
    } else {
        None
    }
}

/// The number of bytes that UTF-8 spends on `c`.
pub open spec fn utf8_width(c: char) -> nat {
    let u = c as u32;
    if u < 0x80 {
        1
    } else if u < 0x800 {
        2
    } else if u < 0x10000 {
        3
    } else {
        4
    }
}

pub open spec fn utf8_len(s: Seq<char>) -> nat
    decreases s.len(),
{
    if s.len() == 0 {
        0
    } else {
        utf8_len(s.drop_last()) + utf8_width(s.last())
    }
}

/// Byte position `b` of the UTF-8 text of `s` falls between two characters.
pub open spec fn at_char_boundary(s: Seq<char>, b: int) -> bool {
    exists|k: int| 0 <= k <= s.len() && utf8_len(#[trigger] s.take(k)) == b
}

/// A text of six bytes that slicing at bytes 2 and 4 would cut inside a
/// character: there, reading three byte pairs panics.
pub open spec fn six_bytes_cut(h: Seq<char>) -> bool {
    utf8_len(h) == 6 && (!at_char_boundary(h, 2) || !at_char_boundary(h, 4))
}

fn hex_digit_value(c: char) -> (r: Option<u8>)
    ensures
        match hex_digit(c) {
            Some(v) => r == Some(v as u8),
            None => r is None,
        },
{
    if '0' <= c && c <= '9' {
        Some((c as u8) - 48)
    } else if 'a' <= c && c <= 'f' {
        Some((c as u8) - 87)
    } else if 'A' <= c && c <= 'F' {
        Some((c as u8) - 55)
    } else {
        None
    }
}

fn read_hex_pair(a: char, b: char) -> (r: Option<u8>)
    ensures
        r == hex_pair(a, b),
{
    match (hex_digit_value(a), hex_digit_value(b)) {
        (Some(x), Some(y)) => Some(x * 16 + y),
        (None, Some(y)) => if a == '+' {
            Some(y)
        } else {
            None
        },
        _ => None,
    }
}

/// Reads three hexadecimal pairs from a text of six characters.
fn read_rgb(h: &[char]) -> (r: Option<(u8, u8, u8)>)
    ensures
        r == rgb_of(h@),
{
    if h.len() != 6 {
        return None;
    }
    match (read_hex_pair(h[0], h[1]), read_hex_pair(h[2], h[3]), read_hex_pair(h[4], h[5])) {
        (Some(r), Some(g), Some(b)) => Some((r, g, b)),
        _ => None,
    }
}

/// The colour that a name gives: a named colour (in any ASCII case; `grey`
/// and `dark_gray` too), and `Reset` for any other name.
pub open spec fn named_color(l: Seq<char>) -> TermColor {
    if l == "black"@ {
        TermColor::Black
    } else if l == "red"@ {
        TermColor::Red
    } else if l == "green"@ {
        TermColor::Green
    } else if l == "yellow"@ {
        TermColor::Yellow
    } else if l == "blue"@ {
        TermColor::Blue
    } else if l == "magenta"@ {
        TermColor::Magenta
    } else if l == "cyan"@ {
        TermColor::Cyan
    } else if l == "gray"@ || l == "grey"@ {
        TermColor::Gray
    } else if l == "white"@ {
        TermColor::White
    } else if l == "darkgray"@ || l == "dark_gray"@ {
        TermColor::DarkGray
    } else {
        TermColor::Reset
    }
}

/// The colour of a theme value: `#rrggbb` gives that colour, otherwise the
/// named colour.
pub open spec fn color_of(name: Seq<char>) -> TermColor {
    if name.len() > 0 && name[0] == '#' && rgb_of(name.drop_first()) is Some {
        let (r, g, b) = rgb_of(name.drop_first())->0;
        TermColor::Rgb(r, g, b)
    } else {
        named_color(ascii_lower_seq(name))
    }
}

/// Reads a theme colour: `#rrggbb` or a colour name.
pub fn parse_color(name: &str) -> (r: TermColor)
    requires
        !(name@.len() > 0 && name@[0] == '#' && six_bytes_cut(name@.drop_first())),
    ensures
        r == color_of(name@),
{
    let cs = chars_of(name);
    if cs.len() > 0 && cs[0] == '#' {
        let hex = crate::text::string_from_range(cs.as_slice(), 1, cs.len());
        let hcs = chars_of(hex.as_str());
        assert(hcs@ =~= name@.drop_first());
        if let Some((r, g, b)) = read_rgb(hcs.as_slice()) {
            return TermColor::Rgb(r, g, b);
        }
    }
    let l = to_ascii_lowercase(name);
    let l = l.as_str();
    if str_eq(l, "black") {
        TermColor::Black
    } else if str_eq(l, "red") {
        TermColor::Red
    } else if str_eq(l, "green") {
        TermColor::Green
    } else if str_eq(l, "yellow") {
        TermColor::Yellow
    } else if str_eq(l, "blue") {
        TermColor::Blue
    } else if str_eq(l, "magenta") {
        TermColor::Magenta
    } else if str_eq(l, "cyan") {
        TermColor::Cyan
    } else if str_eq(l, "gray") || str_eq(l, "grey") {
        TermColor::Gray
    } else if str_eq(l, "white") {
        TermColor::White
    } else if str_eq(l, "darkgray") || str_eq(l, "dark_gray") {
        TermColor::DarkGray
    } else {
        TermColor::Reset
    }
}

/// `s` without its leading `#` characters.
pub open spec fn without_hashes(s: Seq<char>) -> Seq<char>
    decreases s.len(),
{
    if s.len() > 0 && s[0] == '#' {
        without_hashes(s.drop_first())
    } else {
        s
    }
}

/// The colour of an overlay value: the text trimmed and stripped of leading
/// `#` read as six hexadecimal digits, and white otherwise.
pub open spec fn overlay_color_of(name: Seq<char>) -> TermColor {
    match rgb_of(without_hashes(trimmed(name))) {
        Some((r, g, b)) => TermColor::Rgb(r, g, b),
        None => TermColor::White,
    }
}

/// Reads a colour of the dialog overlay: hexadecimal only, white otherwise.
pub fn parse_overlay_color(name: &str) -> (r: TermColor)
    requires
        !six_bytes_cut(without_hashes(trimmed(name@))),
    ensures
        r == overlay_color_of(name@),
{
    let t = trim(name);
    let cs = chars_of(t.as_str());
    let mut i: usize = 0;
    assert(cs@.skip(0) =~= cs@);
    while i < cs.len() && cs[i] == '#'
        invariant
            cs@ == trimmed(name@),
            i <= cs@.len(),
            without_hashes(cs@) == without_hashes(cs@.skip(i as int)),
        decreases cs@.len() - i,
    {
        assert(cs@.skip(i as int).drop_first() =~= cs@.skip(i + 1));
        i += 1;
    }
    let rest = crate::text::string_from_range(cs.as_slice(), i, cs.len());
    let rcs = chars_of(rest.as_str());
    assert(rcs@ =~= cs@.skip(i as int));
    assert(without_hashes(cs@.skip(i as int)) == cs@.skip(i as int));
    match read_rgb(rcs.as_slice()) {
        Some((r, g, b)) => TermColor::Rgb(r, g, b),
        None => TermColor::White,
    }
}

} // verus!
