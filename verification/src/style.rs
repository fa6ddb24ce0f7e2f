//! Styled text for the terminal: colors, span styles, spans and lines.
//! A line is viewed as the sequence of its spans' texts and styles.
use vstd::prelude::*;

verus! {

/// The colors the interface uses.
#[derive(Debug, Clone, Copy, PartialEq, Eq, Structural)]
pub enum Color {
    Yellow,
    Green,
    Cyan,
    Red,
    LightRed,
    Blue,
    Gray,
    DarkGray,
    Rgb(u8, u8, u8),
}

/// A span's style: foreground and background colors, and reverse video.
#[derive(Debug, Clone, Copy, PartialEq, Eq, Structural)]
pub struct SpanStyle {
    pub fg: Option<Color>,
    pub bg: Option<Color>,
    pub reversed: bool,
}

impl SpanStyle {
    /// No colors, no reverse video.
    pub open spec fn plain_spec() -> SpanStyle {
        SpanStyle { fg: None, bg: None, reversed: false }
    }

    pub fn plain() -> (r: SpanStyle)
        ensures
            r == SpanStyle::plain_spec(),
    {
        SpanStyle { fg: None, bg: None, reversed: false }
    }

    /// Only a foreground color.
    pub open spec fn fg_spec(c: Color) -> SpanStyle {
        SpanStyle { fg: Some(c), bg: None, reversed: false }
    }

    pub fn with_fg(c: Color) -> (r: SpanStyle)
        ensures
            r == SpanStyle::fg_spec(c),
    {
        SpanStyle { fg: Some(c), bg: None, reversed: false }
    }
}

/// A run of text in one style.
#[derive(Debug)]
pub struct StyledSpan {
    pub content: String,
    pub style: SpanStyle,
}

/// A line of spans.
#[derive(Debug)]
pub struct StyledLine {
    pub spans: Vec<StyledSpan>,
}

impl View for StyledSpan {
    type V = (Seq<char>, SpanStyle);

    open spec fn view(&self) -> (Seq<char>, SpanStyle) {
        (self.content@, self.style)
    }
}

impl View for StyledLine {
    type V = Seq<(Seq<char>, SpanStyle)>;

    open spec fn view(&self) -> Seq<(Seq<char>, SpanStyle)> {
        self.spans@.map_values(|s: StyledSpan| s@)
    }
}

/// The views of a list of lines.
pub open spec fn lines_view(v: Seq<StyledLine>) -> Seq<Seq<(Seq<char>, SpanStyle)>> {
    v.map_values(|l: StyledLine| l@)
}

pub fn span(content: String, style: SpanStyle) -> (r: StyledSpan)
    ensures
        r@ == (content@, style),
{
    StyledSpan { content, style }
}

} // verus!
