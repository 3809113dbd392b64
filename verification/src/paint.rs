//! Text styles, and their application through the `colored` crate.
//!
//! A [`Painted`] text says, in plain values, what is to be shown and how.
//! Turning it into terminal output is left to `colored`. Whether that
//! output carries escape sequences depends on the environment the process
//! runs in, so what is stated of it holds either way.

use colored::{ColoredString, Colorize};
use vstd::prelude::*;

verus! {

/// The foreground colour of a text.
#[derive(Debug, Clone, Copy, PartialEq, Eq)]
pub enum Hue {
    /// The terminal's own text colour.
    Default,
    Yellow,
    Red,
}

/// How a text is shown on a terminal.
#[derive(Debug, Clone, Copy, PartialEq, Eq)]
pub struct Style {
    pub color: Hue,
    pub bold: bool,
    pub dimmed: bool,
    pub underline: bool,
}

/// A text together with the style it is shown in.
#[derive(Debug, Clone, PartialEq, Eq)]
pub struct Painted {
    pub text: String,
    pub style: Style,
}

/// The mathematical value of a [`Painted`] text.
pub struct PaintedView {
    pub text: Seq<char>,
    pub style: Style,
}

impl View for Painted {
    type V = PaintedView;

    open spec fn view(&self) -> PaintedView {
        PaintedView { text: self.text@, style: self.style }
    }
}

#[verifier::external_type_specification]
#[verifier::external_body]
pub struct ExColoredString(colored::ColoredString);

/// The text that a `ColoredString` holds.
pub uninterp spec fn colored_text(colored: ColoredString) -> Seq<char>;

/// The style that a `ColoredString` holds, where a [`Style`] can say it:
/// no background colour, a foreground colour that is the terminal's own,
/// yellow or red, and no attribute but bold, dimmed and underline. `None`
/// for every other value.
pub uninterp spec fn colored_style(colored: ColoredString) -> Option<Style>;

/// The escape sequence that ends all styling.
pub open spec fn reset_sequence() -> Seq<char> {
    seq!['\u{1b}', '[', '0', 'm']
}

/// The numbers by which an escape sequence names the parts of a style:
/// 1 for bold, 2 for dimmed, 4 for underline, then 33 for yellow or 31 for
/// red.
pub open spec fn style_codes(style: Style) -> Seq<Seq<char>> {
    let bold = if style.bold { seq![seq!['1']] } else { seq![] };
    let dimmed = if style.dimmed { seq![seq!['2']] } else { seq![] };
    let underline = if style.underline { seq![seq!['4']] } else { seq![] };
    let color = match style.color {
        Hue::Default => seq![],
        Hue::Yellow => seq![seq!['3', '3']],
        Hue::Red => seq![seq!['3', '1']],
    };
    bold + dimmed + underline + color
}

/// The given texts in a row, with a semicolon between each two.
pub open spec fn joined(parts: Seq<Seq<char>>) -> Seq<char>
    decreases parts.len(),
{
    if parts.len() == 0 {
        seq![]
    } else if parts.len() == 1 {
        parts[0]
    } else {
        parts[0] + seq![';'] + joined(parts.skip(1))
    }
}

/// The escape sequence that sets a style.
pub open spec fn style_sequence(style: Style) -> Seq<char> {
    seq!['\u{1b}', '['] + joined(style_codes(style)) + seq!['m']
}

/// The text, with `sequence` put in after each reset sequence that the text
/// itself holds, so that the style holds on behind it.
pub open spec fn resumed(text: Seq<char>, sequence: Seq<char>) -> Seq<char>
    decreases text.len(),
{
    if text.len() == 0 {
        text
    } else if text.len() >= 4 && text.take(4) == reset_sequence() {
        reset_sequence() + sequence + resumed(text.skip(4), sequence)
    } else {
        seq![text[0]] + resumed(text.skip(1), sequence)
    }
}

/// The text between the escape sequence of a style and the reset sequence.
pub open spec fn wrapped(text: Seq<char>, style: Style) -> Seq<char> {
    style_sequence(style) + text + reset_sequence()
}

/// Whether `out` is what a terminal is sent for a text in a style: the text
/// itself, or, for a style that is not plain, the text between the style's
/// escape sequence and the reset sequence, with the style taken up again
/// after each reset sequence that the text itself holds. Which of the two
/// it is depends on whether colour is switched on where the process runs.
pub open spec fn is_rendering(out: Seq<char>, text: Seq<char>, style: Style) -> bool {
    ||| out == text
    ||| style != Style::plain() && out == wrapped(resumed(text, style_sequence(style)), style)
}

/// `Colorize::clear` on a string slice: a `ColoredString` of the text, with
/// no colour and no attribute.
#[verifier::external_body]
fn uncolored(text: &str) -> (colored: ColoredString)
    ensures
        colored_text(colored) == text@,
        colored_style(colored) == Some(Style::plain()),
{
    text.clear()
}

/// `Colorize::yellow` on a string slice: a `ColoredString` of the text, in
/// yellow and with no attribute.
#[verifier::external_body]
fn yellow(text: &str) -> (colored: ColoredString)
    ensures
        colored_text(colored) == text@,
        colored_style(colored) == Some(Style { color: Hue::Yellow, ..Style::plain() }),
{
    text.yellow()
}

/// `Colorize::red` on a string slice: a `ColoredString` of the text, in red
/// and with no attribute.
#[verifier::external_body]
fn red(text: &str) -> (colored: ColoredString)
    ensures
        colored_text(colored) == text@,
        colored_style(colored) == Some(Style { color: Hue::Red, ..Style::plain() }),
{
    text.red()
}

/// `Colorize::dimmed` on a `ColoredString`: the same value with the
/// attribute dimmed set.
#[verifier::external_body]
fn dimmed(text: ColoredString) -> (colored: ColoredString)
    ensures
        colored_text(colored) == colored_text(text),
        colored_style(text) matches Some(style) ==> colored_style(colored) == Some(
            Style { dimmed: true, ..style },
        ),
{
    text.dimmed()
}

/// `Colorize::underline` on a `ColoredString`: the same value with the
/// attribute underline set.
#[verifier::external_body]
fn underline(text: ColoredString) -> (colored: ColoredString)
    ensures
        colored_text(colored) == colored_text(text),
        colored_style(text) matches Some(style) ==> colored_style(colored) == Some(
            Style { underline: true, ..style },
        ),
{
    text.underline()
}

/// `Colorize::bold` on a `ColoredString`: the same value with the attribute
/// bold set.
#[verifier::external_body]
fn bold(text: ColoredString) -> (colored: ColoredString)
    ensures
        colored_text(colored) == colored_text(text),
        colored_style(text) matches Some(style) ==> colored_style(colored) == Some(
            Style { bold: true, ..style },
        ),
{
    text.bold()
}

/// `ToString::to_string` on a `ColoredString`, which goes through its
/// `Display`. Where `colored` finds colour switched off, or the value has
/// neither colour nor attribute, that writes the text as it is. Otherwise
/// it writes the escape sequence of the style, the text with that sequence
/// put in again after each reset sequence in it, and the reset sequence.
/// The switch is read from the environment, so which of the two comes out
/// is not claimed.
#[verifier::external_body]
fn render(text: &ColoredString) -> (out: String)
    ensures
        colored_style(*text) matches Some(style) ==> is_rendering(
            out@,
            colored_text(*text),
            style,
        ),
{
    text.to_string()
}

impl Style {
    /// The style of unadorned text.
    pub open spec fn plain() -> Style {
        Style { color: Hue::Default, bold: false, dimmed: false, underline: false }
    }
}

impl Painted {
    /// A text in the given style.
    pub fn new(text: &str, style: Style) -> (painted: Painted)
        ensures
            painted@ == (PaintedView { text: text@, style }),
    {
        Painted { text: text.to_owned(), style }
    }

    /// The same text and style as a value of the `colored` crate: the
    /// colour is set first, then each attribute that the style asks for.
    pub fn to_colored(&self) -> (colored: ColoredString)
        ensures
            colored_text(colored) == self@.text,
            colored_style(colored) == Some(self@.style),
    {
        let mut colored = match self.style.color {
            Hue::Default => uncolored(self.text.as_str()),
            Hue::Yellow => yellow(self.text.as_str()),
            Hue::Red => red(self.text.as_str()),
        };
        if self.style.dimmed {
            colored = dimmed(colored);
        }
        if self.style.underline {
            colored = underline(colored);
        }
        if self.style.bold {
            colored = bold(colored);
        }
        colored
    }

    /// What is written to a terminal for this text.
    pub fn render(&self) -> (out: String)
        ensures
            is_rendering(out@, self@.text, self@.style),
    {
        render(&self.to_colored())
    }
}

/// A text in the plain style is sent to a terminal as it is, whether colour
/// is switched on or not.
pub proof fn lemma_plain_renders_as_itself(out: Seq<char>, text: Seq<char>)
    requires
        is_rendering(out, text, Style::plain()),
    ensures
        out == text,
{
}

/// A text that holds no escape character holds no reset sequence, so
/// nothing is put into it: in a style that is not plain it is sent to a
/// terminal either as it is, or between the style's escape sequence and
/// the reset sequence.
pub proof fn lemma_rendering_of_escape_free_text(out: Seq<char>, text: Seq<char>, style: Style)
    requires
        is_rendering(out, text, style),
        forall|i: int| 0 <= i < text.len() ==> text[i] != '\u{1b}',
    ensures
        out == text || out == wrapped(text, style),
{
    lemma_resumed_escape_free(text, style_sequence(style));
}

proof fn lemma_resumed_escape_free(text: Seq<char>, sequence: Seq<char>)
    requires
        forall|i: int| 0 <= i < text.len() ==> text[i] != '\u{1b}',
    ensures
        resumed(text, sequence) == text,
    decreases text.len(),
{
    if text.len() > 0 {
        if text.len() >= 4 {
            assert(text.take(4)[0] == text[0]);
        }
        assert forall|i: int| 0 <= i < text.skip(1).len() implies text.skip(1)[i] != '\u{1b}' by {
            assert(text.skip(1)[i] == text[i + 1]);
        }
        lemma_resumed_escape_free(text.skip(1), sequence);
        assert(seq![text[0]] + text.skip(1) =~= text);
    }
}

} // verus!
