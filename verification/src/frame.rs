//! What one full repaint of the screen shows: three bordered panels of styled
//! text and the place of the terminal's cursor.

use vstd::prelude::*;
use crate::layout::Area;

verus! {

/// A colour of the foreground or of the background.
#[derive(Debug, Clone, Copy, PartialEq, Eq, Structural)]
pub enum Color {
    /// No colour is set: what lies beneath shows through.
    Unset,
    /// The terminal's own default colour.
    Reset,
    White,
    Yellow,
    Blue,
}

/// How a piece of text is drawn.
#[derive(Debug, Clone, Copy, PartialEq, Eq, Structural)]
pub struct Style {
    /// Foreground colour.
    pub fg: Color,
    /// Background colour.
    pub bg: Color,
    /// Whether the text is bold.
    pub bold: bool,
}

/// The outline of a panel's border.
#[derive(Debug, Clone, Copy, PartialEq, Eq, Structural)]
pub enum Border {
    Plain,
    Rounded,
}

/// Where text is placed within a panel's width.
#[derive(Debug, Clone, Copy, PartialEq, Eq, Structural)]
pub enum Alignment {
    Left,
    Center,
    Right,
}

/// A run of characters in one style.
#[derive(Debug, PartialEq, Eq)]
pub struct Span {
    /// The characters.
    pub content: Vec<char>,
    /// Their style.
    pub style: Style,
}

/// What a `Span` stands for.
pub struct SpanView {
    pub content: Seq<char>,
    pub style: Style,
}

impl View for Span {
    type V = SpanView;

    open spec fn view(&self) -> SpanView {
        SpanView { content: self.content@, style: self.style }
    }
}

/// One line of text: spans from left to right.
#[derive(Debug, PartialEq, Eq)]
pub struct Line {
    pub spans: Vec<Span>,
}

impl View for Line {
    type V = Seq<SpanView>;

    open spec fn view(&self) -> Seq<SpanView> {
        self.spans@.map_values(|span: Span| span@)
    }
}

/// A bordered box of text.
#[derive(Debug, PartialEq, Eq)]
pub struct Panel {
    /// The cells that the panel covers, border included.
    pub area: Area,
    /// The text, first line first.
    pub lines: Vec<Line>,
    /// Style of the box and its border.
    pub block_style: Style,
    /// Style beneath the text.
    pub text_style: Style,
    /// Outline of the border, which runs along all four sides.
    pub border: Border,
    /// Placement of the text.
    pub alignment: Alignment,
    /// Whether leading blanks are dropped where a long line is wrapped.
    pub trim: bool,
}

/// What a `Panel` stands for.
pub struct PanelView {
    pub area: Area,
    pub lines: Seq<Seq<SpanView>>,
    pub block_style: Style,
    pub text_style: Style,
    pub border: Border,
    pub alignment: Alignment,
    pub trim: bool,
}

impl View for Panel {
    type V = PanelView;

    open spec fn view(&self) -> PanelView {
        PanelView {
            area: self.area,
            lines: self.lines@.map_values(|line: Line| line@),
            block_style: self.block_style,
            text_style: self.text_style,
            border: self.border,
            alignment: self.alignment,
            trim: self.trim,
        }
    }
}

/// One full repaint.
#[derive(Debug, PartialEq, Eq)]
pub struct Frame {
    /// The title, at the top.
    pub header: Panel,
    /// The practice text, in the middle.
    pub body: Panel,
    /// The help, at the bottom.
    pub footer: Panel,
    /// Column and row of the terminal's cursor.
    pub cursor: (u16, u16),
}

/// What a `Frame` stands for.
pub struct FrameView {
    pub header: PanelView,
    pub body: PanelView,
    pub footer: PanelView,
    pub cursor: (u16, u16),
}

impl View for Frame {
    type V = FrameView;

    open spec fn view(&self) -> FrameView {
        FrameView {
            header: self.header@,
            body: self.body@,
            footer: self.footer@,
            cursor: self.cursor,
        }
    }
}

/// The view of a span of `content` in `style`.
pub open spec fn span_view(content: Seq<char>, style: Style) -> SpanView {
    SpanView { content, style }
}

/// A style with the terminal's default background, not bold.
pub open spec fn plain_style(fg: Color) -> Style {
    Style { fg, bg: Color::Reset, bold: false }
}

/// A bold style with the terminal's default background.
pub open spec fn bold_style(fg: Color) -> Style {
    Style { fg, bg: Color::Reset, bold: true }
}

/// The style with the terminal's default foreground and background.
pub open spec fn reset_style() -> Style {
    plain_style(Color::Reset)
}

/// The style that sets nothing.
pub open spec fn unset_style() -> Style {
    Style { fg: Color::Unset, bg: Color::Unset, bold: false }
}

/// A span of the characters of `text` in `style`.
pub fn span(text: &str, style: Style) -> (span: Span)
    ensures
        span@ == span_view(text@, style),
{
    Span { content: crate::text::chars_of(text), style }
}

} // verus!
