//! Color styling and the terminal-line erase helper.
//!
//! Styling is cosmetic and is delegated to the `colored` crate: a painted
//! string is the input text wrapped in escape-code affixes (or returned
//! unchanged when styling is off). The dispatch from a [`Color`] value to
//! the styling call is verified; only the styling calls themselves are
//! trusted.

use vstd::prelude::*;

use colored::Colorize;

use crate::render::erase_sequence;
use crate::streams::Streams;

verus! {

/// Color for the spinner. Supports the 8 basic colors and a custom
/// true-color variant.
#[derive(Copy, Clone, Eq, PartialEq, Ord, PartialOrd, Hash, Debug)]
#[non_exhaustive]
pub enum Color {
    Blue,
    Green,
    Red,
    Yellow,
    Cyan,
    White,
    Black,
    Magenta,
    TrueColor { r: u8, g: u8, b: u8 },
}

/// The escape character that introduces a terminal control sequence.
pub open spec fn escape_char() -> char {
    '\u{1b}'
}

/// True when `s` holds no escape character, so no control sequence of the
/// text itself can interfere with the styling affixes put around it.
pub open spec fn escape_free(s: Seq<char>) -> bool {
    forall|i: int| 0 <= i < s.len() ==> s[i] != escape_char()
}

/// True when `r` is `text` wrapped in (possibly empty) affixes: the shape
/// every styled string takes.
pub open spec fn wraps(r: Seq<char>, text: Seq<char>) -> bool {
    exists|pre: Seq<char>, suf: Seq<char>| r == pre + text + suf
}

/// Relies on `colored::Colorize::color` and `ToString` through
/// `ColoredString`'s `Display`: the result is the input wrapped in escape
/// affixes, or the input itself when styling is off; when the input holds
/// no escape character it is embedded whole and unchanged.
#[verifier::external_body]
fn paint(color_name: &str, text: &str) -> (r: String)
    ensures
        escape_free(text@) ==> wraps(r@, text@),
{
    text.color(color_name).to_string()
}

/// Relies on `colored::Colorize::truecolor` and `ToString` through
/// `ColoredString`'s `Display`: the result is the input wrapped in escape
/// affixes, or the input itself when styling is off; when the input holds
/// no escape character it is embedded whole and unchanged.
#[verifier::external_body]
fn paint_true_color(red: u8, green: u8, blue: u8, text: &str) -> (r: String)
    ensures
        escape_free(text@) ==> wraps(r@, text@),
{
    text.truecolor(red, green, blue).to_string()
}

/// The name the styling crate knows each basic color by.
fn color_name(color: Color) -> (r: &'static str)
    requires
        !(color is TrueColor),
{
    match color {
        Color::Blue => "blue",
        Color::Green => "green",
        Color::Red => "red",
        Color::Yellow => "yellow",
        Color::Cyan => "cyan",
        Color::White => "white",
        Color::Black => "black",
        Color::Magenta => "magenta",
        Color::TrueColor { .. } => "",
    }
}

/// Styles `frame` in the given color; `None` means no styling and returns
/// the text unchanged.
pub fn colorize(color: Option<Color>, frame: &str) -> (r: String)
    ensures
        color is None ==> r@ == frame@,
        escape_free(frame@) ==> wraps(r@, frame@),
{
    match color {
        None => {
            let r = String::from_str(frame);
            proof {
                assert(r@ == Seq::<char>::empty() + frame@ + Seq::<char>::empty());
            }
            r
        },
        Some(Color::TrueColor { r, g, b }) => paint_true_color(r, g, b, frame),
        Some(c) => paint(color_name(c), frame),
    }
}

/// Erases the last drawn terminal line: a carriage return, `clear_length`
/// blanks, and a carriage return, written to `stream`.
pub fn delete_last_line(clear_length: usize, stream: Streams) {
    let erase = erase_sequence(clear_length);
    stream.write_bytes(erase.as_slice());
}

} // verus!
