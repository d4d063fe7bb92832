//! Colours, and pieces of coloured text.

use vstd::prelude::*;
use vstd::string::*;

verus! {

/// A colour of the terminal.
#[derive(Clone, Copy, Debug, PartialEq, Eq, Structural)]
pub enum Color {
    /// The terminal's own black.
    Black,
    /// Red, green and blue.
    Rgb(u8, u8, u8),
}

/// The colours of the dashboard.
#[derive(Clone, Copy, Debug, PartialEq, Eq, Structural)]
pub struct Theme {
    pub bg: Color,
    pub border: Color,
    pub text: Color,
    pub muted: Color,
    pub accent: Color,
    pub accent_soft: Color,
    pub ok: Color,
    pub warn: Color,
    pub info: Color,
}

/// The colour of the session line.
pub open spec fn session_color() -> Color {
    Color::Rgb(255, 204, 128)
}

/// The colour behind the bar of a meter.
pub fn gauge_track() -> (r: Color)
    ensures
        r == Color::Rgb(78, 85, 96),
{
    Color::Rgb(78, 85, 96)
}

impl Default for Theme {
    fn default() -> (r: Self)
        ensures
            r == (Theme {
                bg: Color::Black,
                border: Color::Rgb(46, 66, 87),
                text: Color::Rgb(228, 233, 240),
                muted: Color::Rgb(129, 151, 171),
                accent: Color::Rgb(255, 168, 76),
                accent_soft: Color::Rgb(255, 204, 128),
                ok: Color::Rgb(99, 210, 140),
                warn: Color::Rgb(255, 122, 89),
                info: Color::Rgb(82, 177, 255),
            }),
    {
        Theme {
            bg: Color::Black,
            border: Color::Rgb(46, 66, 87),
            text: Color::Rgb(228, 233, 240),
            muted: Color::Rgb(129, 151, 171),
            accent: Color::Rgb(255, 168, 76),
            accent_soft: Color::Rgb(255, 204, 128),
            ok: Color::Rgb(99, 210, 140),
            warn: Color::Rgb(255, 122, 89),
            info: Color::Rgb(82, 177, 255),
        }
    }
}

/// A piece of text in one style.
#[derive(Debug)]
pub struct Span {
    pub text: String,
    pub fg: Option<Color>,
    pub bg: Option<Color>,
    pub bold: bool,
}

/// The model of a piece of text in one style.
pub struct SpanModel {
    pub text: Seq<char>,
    pub fg: Option<Color>,
    pub bg: Option<Color>,
    pub bold: bool,
}

impl DeepView for Span {
    type V = SpanModel;

    open spec fn deep_view(&self) -> SpanModel {
        SpanModel { text: self.text@, fg: self.fg, bg: self.bg, bold: self.bold }
    }
}

/// A text without a style.
pub open spec fn unstyled(text: Seq<char>) -> SpanModel {
    SpanModel { text, fg: None, bg: None, bold: false }
}

/// A text in a colour.
pub open spec fn in_color(text: Seq<char>, color: Color) -> SpanModel {
    SpanModel { text, fg: Some(color), bg: None, bold: false }
}

/// A bold text in a colour.
pub open spec fn in_bold(text: Seq<char>, color: Color) -> SpanModel {
    SpanModel { text, fg: Some(color), bg: None, bold: true }
}

/// A bold text in a colour on another.
pub open spec fn on_color(text: Seq<char>, color: Color, ground: Color) -> SpanModel {
    SpanModel { text, fg: Some(color), bg: Some(ground), bold: true }
}

impl Span {
    /// A text without a style.
    pub fn raw(text: &str) -> (r: Self)
        ensures
            r.deep_view() == unstyled(text@),
    {
        Span { text: text.to_owned(), fg: None, bg: None, bold: false }
    }

    /// A text in a colour.
    pub fn colored(text: &str, color: Color) -> (r: Self)
        ensures
            r.deep_view() == in_color(text@, color),
    {
        Span { text: text.to_owned(), fg: Some(color), bg: None, bold: false }
    }

    /// A bold text in a colour.
    pub fn bold(text: &str, color: Color) -> (r: Self)
        ensures
            r.deep_view() == in_bold(text@, color),
    {
        Span { text: text.to_owned(), fg: Some(color), bg: None, bold: true }
    }

    /// A bold text in a colour on another.
    pub fn inverse(text: &str, color: Color, ground: Color) -> (r: Self)
        ensures
            r.deep_view() == on_color(text@, color, ground),
    {
        Span { text: text.to_owned(), fg: Some(color), bg: Some(ground), bold: true }
    }
}

} // verus!
