//! Colors as the terminal renderer understands them, parsed from the text
//! that configuration files and label editors hold.
use ratatui::style::Color;
use vstd::prelude::*;

verus! {

#[verifier::external_type_specification]
#[verifier::external_body]
pub struct ExColor(Color);

/// Whether the renderer reads this text as a color (a name such as `red`, an
/// index such as `42`, or `#RRGGBB`).
pub uninterp spec fn color_parses(s: Seq<char>) -> bool;

pub open spec fn is_hex_digit(c: char) -> bool {
    ('0' <= c && c <= '9') || ('a' <= c && c <= 'f') || ('A' <= c && c <= 'F')
}

/// `#` followed by six hexadecimal digits.
pub open spec fn is_hex_color(s: Seq<char>) -> bool {
    &&& s.len() == 7
    &&& s[0] == '#'
    &&& forall|i: int| 1 <= i < 7 ==> is_hex_digit(#[trigger] s[i])
}

/// Text made of ASCII characters that the renderer reads as a color.
pub open spec fn names_color(s: Seq<char>) -> bool {
    vstd::utf8::is_ascii_chars(s) && color_parses(s)
}

/// Relies on ratatui's `Color::from_str`: it accepts color names, indexes and
/// `#RRGGBB` with hexadecimal digits; on ASCII text it does not panic.
#[verifier::external_body]
fn color_from_ascii(s: &str) -> (r: Option<Color>)
    requires
        s.is_ascii(),
    ensures
        r.is_some() == color_parses(s@),
        is_hex_color(s@) ==> r.is_some(),
{
    <Color as std::str::FromStr>::from_str(s).ok()
}

/// The color a text names; text with other than ASCII characters names none.
pub fn parse_color(s: &str) -> (r: Option<Color>)
    ensures
        r.is_some() == names_color(s@),
        vstd::string::is_ascii(s) && is_hex_color(s@) ==> r.is_some(),
{
    if s.is_ascii() {
        color_from_ascii(s)
    } else {
        None
    }
}

/// The color a text names, or `fallback` when it names none: a half-typed
/// color never fails to show.
pub fn color_or(s: &str, fallback: Color) -> (r: Color)
    ensures
        !names_color(s@) ==> r == fallback,
{
    match parse_color(s) {
        Some(c) => c,
        None => fallback,
    }
}

} // verus!
