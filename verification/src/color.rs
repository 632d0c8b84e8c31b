//! Colors and the tokens that name them.

use crate::text::{chars_of, spells};
use vstd::prelude::*;

verus! {

/// A color the terminal can show. `Reset` is the terminal's own default.
#[derive(Clone, Copy, Debug, PartialEq, Eq, Structural)]
pub enum Color {
    Reset,
    Black,
    DarkGrey,
    Red,
    DarkRed,
    Green,
    DarkGreen,
    Yellow,
    DarkYellow,
    Blue,
    DarkBlue,
    Magenta,
    DarkMagenta,
    Cyan,
    DarkCyan,
    White,
    Grey,
    Rgb { r: u8, g: u8, b: u8 },
}

/// What `str::to_lowercase` returns for a string with the characters `s`.
pub uninterp spec fn lowercase_of(s: Seq<char>) -> Seq<char>;

/// The value of a hexadecimal digit, upper or lower case.
pub open spec fn hex_digit(c: char) -> Option<int> {
    if '0' <= c <= '9' {
        Some(c as int - '0' as int)
    } else if 'a' <= c <= 'f' {
        Some(c as int - 'a' as int + 10)
    } else if 'A' <= c <= 'F' {
        Some(c as int - 'A' as int + 10)
    } else {
        None
    }
}

/// The byte written as the two hexadecimal digits `hi` and `lo`.
pub open spec fn hex_byte(hi: char, lo: char) -> Option<u8> {
    match (hex_digit(hi), hex_digit(lo)) {
        (Some(h), Some(l)) => Some((h * 16 + l) as u8),
        _ => None,
    }
}

impl Color {
    /// The color that a `#RRGGBB` token stands for: `#` and exactly six
    /// hexadecimal digits.
    pub open spec fn of_hex(token: Seq<char>) -> Option<Color> {
        if token.len() == 7 && token[0] == '#' {
            match (
                hex_byte(token[1], token[2]),
                hex_byte(token[3], token[4]),
                hex_byte(token[5], token[6]),
            ) {
                (Some(r), Some(g), Some(b)) => Some(Color::Rgb { r, g, b }),
                _ => None,
            }
        } else {
            None
        }
    }

    /// The color with the given lower-case name.
    pub open spec fn of_name(name: Seq<char>) -> Option<Color> {
        if name == "black"@ {
            Some(Color::Black)
        } else if name == "red"@ {
            Some(Color::Red)
        } else if name == "green"@ {
            Some(Color::Green)
        } else if name == "yellow"@ {
            Some(Color::Yellow)
        } else if name == "blue"@ {
            Some(Color::Blue)
        } else if name == "magenta"@ {
            Some(Color::Magenta)
        } else if name == "cyan"@ {
            Some(Color::Cyan)
        } else if name == "white"@ {
            Some(Color::White)
        } else if name == "dark_grey"@ {
            Some(Color::DarkGrey)
        } else if name == "dark_red"@ {
            Some(Color::DarkRed)
        } else if name == "dark_green"@ {
            Some(Color::DarkGreen)
        } else if name == "dark_yellow"@ {
            Some(Color::DarkYellow)
        } else if name == "dark_blue"@ {
            Some(Color::DarkBlue)
        } else if name == "dark_magenta"@ {
            Some(Color::DarkMagenta)
        } else if name == "dark_cyan"@ {
            Some(Color::DarkCyan)
        } else if name == "grey"@ {
            Some(Color::Grey)
        } else {
            None
        }
    }

    /// The color that a token stands for. A token that begins with `#` is
    /// read as `#RRGGBB`; any other token is a color name, in any letter
    /// case. A token that is neither stands for no color.
    pub open spec fn of_token(token: Seq<char>) -> Option<Color> {
        if token.len() > 0 && token[0] == '#' {
            Color::of_hex(token)
        } else {
            Color::of_name(lowercase_of(token))
        }
    }

    /// The color of an optional token: none where the token is absent.
    pub open spec fn resolved(token: Option<String>) -> Option<Color> {
        match token {
            Some(t) => Color::of_token(t@),
            None => None,
        }
    }

    /// The first of two optional tokens that stands for a color.
    pub open spec fn first_resolved(first: Option<String>, second: Option<String>) -> Option<
        Color,
    > {
        match Color::resolved(first) {
            Some(c) => Some(c),
            None => Color::resolved(second),
        }
    }

    /// The channels of the color where it is an `Rgb`, black otherwise.
    pub open spec fn channels(self) -> (u8, u8, u8) {
        match self {
            Color::Rgb { r, g, b } => (r, g, b),
            _ => (0u8, 0u8, 0u8),
        }
    }
}

/// Calls `str::to_lowercase`, which returns the lower-case form of `s` as
/// Unicode defines it.
#[verifier::external_body]
fn to_lowercase(s: &str) -> (lower: String)
    ensures
        lower@ == lowercase_of(s@),
{
    s.to_lowercase()
}

/// The value of the hexadecimal digit `c`, if it is one.
pub fn hex_digit_value(c: char) -> (value: Option<u8>)
    ensures
        value is Some <==> hex_digit(c) is Some,
        value matches Some(v) ==> hex_digit(c) == Some(v as int),
{
    if '0' <= c && c <= '9' {
        Some((c as u8) - ('0' as u8))
    } else if 'a' <= c && c <= 'f' {
        Some((c as u8) - ('a' as u8) + 10)
    } else if 'A' <= c && c <= 'F' {
        Some((c as u8) - ('A' as u8) + 10)
    } else {
        None
    }
}

/// The byte written as the two hexadecimal digits `hi` and `lo`, if both
/// are digits.
fn hex_byte_value(hi: char, lo: char) -> (value: Option<u8>)
    ensures
        value == hex_byte(hi, lo),
{
    match (hex_digit_value(hi), hex_digit_value(lo)) {
        (Some(h), Some(l)) => Some(h * 16 + l),
        _ => None,
    }
}

/// Reads a `#RRGGBB` token. Anything else gives no color.
pub fn hex_color(token: &str) -> (color: Option<Color>)
    ensures
        color == Color::of_hex(token@),
{
    let chars = chars_of(token);
    if chars.len() != 7 || chars[0] != '#' {
        return None;
    }
    match (
        hex_byte_value(chars[1], chars[2]),
        hex_byte_value(chars[3], chars[4]),
        hex_byte_value(chars[5], chars[6]),
    ) {
        (Some(r), Some(g), Some(b)) => Some(Color::Rgb { r, g, b }),
        _ => None,
    }
}

/// The color with the lower-case name `name`, if there is one.
pub fn named_color(name: &str) -> (color: Option<Color>)
    ensures
        color == Color::of_name(name@),
{
    let chars = chars_of(name);
    if spells(&chars, "black") {
        Some(Color::Black)
    } else if spells(&chars, "red") {
        Some(Color::Red)
    } else if spells(&chars, "green") {
        Some(Color::Green)
    } else if spells(&chars, "yellow") {
        Some(Color::Yellow)
    } else if spells(&chars, "blue") {
        Some(Color::Blue)
    } else if spells(&chars, "magenta") {
        Some(Color::Magenta)
    } else if spells(&chars, "cyan") {
        Some(Color::Cyan)
    } else if spells(&chars, "white") {
        Some(Color::White)
    } else if spells(&chars, "dark_grey") {
        Some(Color::DarkGrey)
    } else if spells(&chars, "dark_red") {
        Some(Color::DarkRed)
    } else if spells(&chars, "dark_green") {
        Some(Color::DarkGreen)
    } else if spells(&chars, "dark_yellow") {
        Some(Color::DarkYellow)
    } else if spells(&chars, "dark_blue") {
        Some(Color::DarkBlue)
    } else if spells(&chars, "dark_magenta") {
        Some(Color::DarkMagenta)
    } else if spells(&chars, "dark_cyan") {
        Some(Color::DarkCyan)
    } else if spells(&chars, "grey") {
        Some(Color::Grey)
    } else {
        None
    }
}

/// Whether `token` begins with `#`.
fn is_hex_token(token: &str) -> (hex: bool)
    ensures
        hex == (token@.len() > 0 && token@[0] == '#'),
{
    let mut it = token.chars();
    match it.next() {
        Some(c) => c == '#',
        None => false,
    }
}

/// Resolves an optional color token. An absent token, and one that is
/// neither `#RRGGBB` nor a color name, resolves to no color.
pub fn parse_color(color_str: &Option<String>) -> (color: Option<Color>)
    ensures
        color == Color::resolved(*color_str),
{
    match color_str {
        Some(token) => {
            if is_hex_token(token.as_str()) {
                hex_color(token.as_str())
            } else {
                let lower = to_lowercase(token.as_str());
                named_color(lower.as_str())
            }
        },
        None => None,
    }
}

/// Resolves the first of two optional tokens that stands for a color.
pub fn first_color(first: &Option<String>, second: &Option<String>) -> (color: Option<Color>)
    ensures
        color == Color::first_resolved(*first, *second),
{
    match parse_color(first) {
        Some(c) => Some(c),
        None => parse_color(second),
    }
}

} // verus!
