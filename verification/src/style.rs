//! Colours for the pieces of a line, applied through the `colored` crate.
//!
//! Whether `colored` paints at all is decided by a switch of its own, set
//! from the environment or by the program, so every contract here allows for
//! both: a piece comes back either as it went in or wrapped in escape
//! sequences.

use colored::Colorize;
use vstd::prelude::*;

verus! {

/// The colours that a line uses.
#[derive(Clone, Copy, Debug, PartialEq, Eq, Structural)]
pub enum Color {
    Red,
    Green,
    Yellow,
    Blue,
    Magenta,
    Cyan,
    BrightGreen,
    BrightBlue,
}

/// A colour, in bold or in normal weight.
#[derive(Clone, Copy, Debug, PartialEq, Eq, Structural)]
pub struct Paint {
    pub color: Color,
    pub bold: bool,
}

/// The number that selects a foreground colour in an escape sequence.
pub open spec fn color_code(color: Color) -> Seq<char> {
    match color {
        Color::Red => "31"@,
        Color::Green => "32"@,
        Color::Yellow => "33"@,
        Color::Blue => "34"@,
        Color::Magenta => "35"@,
        Color::Cyan => "36"@,
        Color::BrightGreen => "92"@,
        Color::BrightBlue => "94"@,
    }
}

/// The escape sequence that ends all colour and weight.
pub open spec fn reset_sequence() -> Seq<char> {
    "\x1B[0m"@
}

/// The escape sequence that switches a paint on.
pub open spec fn opening_sequence(paint: Paint) -> Seq<char> {
    if paint.bold {
        "\x1B[1;"@ + color_code(paint.color) + "m"@
    } else {
        "\x1B["@ + color_code(paint.color) + "m"@
    }
}

/// Whether `needle` stands somewhere in `text` as an unbroken run.
pub open spec fn occurs_in(needle: Seq<char>, text: Seq<char>) -> bool {
    exists|at: int|
        0 <= at && at + needle.len() <= text.len() && #[trigger] text.subrange(
            at,
            at + needle.len(),
        ) == needle
}

/// A text between the sequence that switches a paint on and the reset.
pub open spec fn painted(text: Seq<char>, paint: Paint) -> Seq<char> {
    opening_sequence(paint) + text + reset_sequence()
}

/// What may come back when `text` is handed to `colored` with a paint.
///
/// With painting switched off the text comes back unchanged. With painting
/// switched on it comes back painted. `colored` asks its switch more than
/// once for one text, so where the switch is turned off in between, the reset
/// may follow the text without the opening sequence before it. Nothing is
/// said of a text that holds a reset sequence itself.
pub open spec fn shows(out: Seq<char>, text: Seq<char>, paint: Paint) -> bool {
    ||| occurs_in(reset_sequence(), text)
    ||| out == text
    ||| out == painted(text, paint)
    ||| out == text + reset_sequence()
}

/// `Colorize::color` on a `&str`, then `to_string` on the `ColoredString`:
/// the text with the foreground colour set and nothing else. Its `Display`
/// writes the text alone when `colored` does not paint, and otherwise
/// `ESC [ <colour> m`, the text and `ESC [ 0 m`, provided the text holds no
/// reset sequence of its own. Taken on trust from `colored`.
#[verifier::external_body]
fn tint(text: &str, color: Color) -> (out: String)
    ensures
        shows(out@, text@, (Paint { color, bold: false })),
{
    let hue = match color {
        Color::Red => colored::Color::Red,
        Color::Green => colored::Color::Green,
        Color::Yellow => colored::Color::Yellow,
        Color::Blue => colored::Color::Blue,
        Color::Magenta => colored::Color::Magenta,
        Color::Cyan => colored::Color::Cyan,
        Color::BrightGreen => colored::Color::BrightGreen,
        Color::BrightBlue => colored::Color::BrightBlue,
    };
    text.color(hue).to_string()
}

/// `Colorize::color` on a `&str`, `Colorize::bold` on the result, then
/// `to_string`: as `tint`, with the weight `1;` written before the colour in
/// the opening sequence. Taken on trust from `colored`.
#[verifier::external_body]
fn tint_bold(text: &str, color: Color) -> (out: String)
    ensures
        shows(out@, text@, (Paint { color, bold: true })),
{
    let hue = match color {
        Color::Red => colored::Color::Red,
        Color::Green => colored::Color::Green,
        Color::Yellow => colored::Color::Yellow,
        Color::Blue => colored::Color::Blue,
        Color::Magenta => colored::Color::Magenta,
        Color::Cyan => colored::Color::Cyan,
        Color::BrightGreen => colored::Color::BrightGreen,
        Color::BrightBlue => colored::Color::BrightBlue,
    };
    text.color(hue).bold().to_string()
}

/// Hands a text to `colored` with the given paint.
pub fn apply(text: &str, paint: Paint) -> (out: String)
    ensures
        shows(out@, text@, paint),
{
    if paint.bold {
        tint_bold(text, paint.color)
    } else {
        tint(text, paint.color)
    }
}

} // verus!
