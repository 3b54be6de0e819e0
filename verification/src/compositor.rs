//! The compositor: it owns the document, lays the screen out in three rows and
//! composes the frame that a repaint shows.

use vstd::prelude::*;
use crate::document::{document_lines, Document, DocumentView};
use crate::frame::{
    bold_style, plain_style, reset_style, span, span_view, unset_style, Alignment, Border, Color,
    Frame, FrameView, Line, Panel, PanelView, Span, SpanView, Style,
};
use crate::layout::{row_within, split, splittable, Area};
use crate::stats::Stats;
use crate::text::lines_view;

verus! {

/// Share of the rows, in percent, that the header takes.
pub const HEADER_PERCENT: u16 = 10;

/// Share of the rows, in percent, that the body takes.
pub const BODY_PERCENT: u16 = 80;

/// Share of the rows, in percent, that the footer takes.
pub const FOOTER_PERCENT: u16 = 10;

/// Columns left free at each side of the screen.
pub const HORIZONTAL_MARGIN: u16 = 2;

/// Rows left free at the top and at the bottom of the screen.
pub const VERTICAL_MARGIN: u16 = 1;

/// The title shown in the header.
pub open spec fn title_lines() -> Seq<Seq<SpanView>> {
    seq![
        seq![
            span_view("T"@, bold_style(Color::Yellow)),
            span_view("erminal-typing "@, plain_style(Color::Yellow)),
            span_view("E"@, bold_style(Color::Yellow)),
            span_view("xercise "@, plain_style(Color::Yellow)),
            span_view("A"@, bold_style(Color::Yellow)),
            span_view("pplication"@, plain_style(Color::Yellow)),
        ],
    ]
}

/// The help shown in the footer.
pub open spec fn help_lines() -> Seq<Seq<SpanView>> {
    seq![
        seq![span_view("HELP"@, plain_style(Color::White))],
        seq![
            span_view("esc : "@, plain_style(Color::Blue)),
            span_view("quit\n"@, plain_style(Color::White)),
        ],
        seq![
            span_view("ctrl-c : "@, plain_style(Color::Blue)),
            span_view("quit\n"@, plain_style(Color::White)),
        ],
    ]
}

/// Line `i` of the practice text as it is shown: in white, and on the first
/// line, where it has text, the first character in bold.
pub open spec fn shown_line(lines: Seq<Seq<char>>, i: int) -> Seq<SpanView> {
    if i == 0 && lines[0].len() > 0 {
        seq![
            span_view(lines[0].take(1), bold_style(Color::White)),
            span_view(lines[0].skip(1), plain_style(Color::White)),
        ]
    } else {
        seq![span_view(lines[i], plain_style(Color::White))]
    }
}

/// The practice text as it is shown in the body, line by line.
pub open spec fn shown_lines(lines: Seq<Seq<char>>) -> Seq<Seq<SpanView>> {
    Seq::new(lines.len(), |i: int| shown_line(lines, i))
}

/// The header panel on `area`.
pub open spec fn header_view(area: Area) -> PanelView {
    PanelView {
        area,
        lines: title_lines(),
        block_style: reset_style(),
        text_style: reset_style(),
        border: Border::Rounded,
        alignment: Alignment::Left,
        trim: true,
    }
}

/// The body panel on `area`, showing `lines`.
pub open spec fn body_view(lines: Seq<Seq<char>>, area: Area) -> PanelView {
    PanelView {
        area,
        lines: shown_lines(lines),
        block_style: unset_style(),
        text_style: reset_style(),
        border: Border::Rounded,
        alignment: Alignment::Left,
        trim: false,
    }
}

/// The footer panel on `area`.
pub open spec fn footer_view(area: Area) -> PanelView {
    PanelView {
        area,
        lines: help_lines(),
        block_style: reset_style(),
        text_style: reset_style(),
        border: Border::Rounded,
        alignment: Alignment::Left,
        trim: true,
    }
}

/// Whether the cursor of `doc` can be placed relative to `area`: the cursor's
/// row is added to the area's column and the cursor's column to the area's row,
/// and both sums must be coordinates.
pub open spec fn cursor_fits(doc: DocumentView, area: Area) -> bool {
    &&& area.x + doc.row <= u16::MAX
    &&& area.y + doc.column <= u16::MAX
}

/// The terminal cursor for `doc` relative to `area`, where it fits.
pub open spec fn cursor_at(doc: DocumentView, area: Area) -> (u16, u16) {
    ((area.x + doc.row) as u16, (area.y + doc.column) as u16)
}

/// The frame that shows `doc` on the three given areas.
pub open spec fn frame_view(doc: DocumentView, header: Area, body: Area, footer: Area) -> FrameView {
    FrameView {
        header: header_view(header),
        body: body_view(doc.lines, body),
        footer: footer_view(footer),
        cursor: cursor_at(doc, body),
    }
}

/// The frame that shows `doc` on the three given areas, or nothing where the
/// cursor cannot be placed relative to the body.
pub open spec fn composed(doc: DocumentView, header: Area, body: Area, footer: Area) -> Option<
    FrameView,
> {
    if cursor_fits(doc, body) {
        Some(frame_view(doc, header, body, footer))
    } else {
        None
    }
}

/// What an optional frame stands for.
pub open spec fn shown(frame: Option<Frame>) -> Option<FrameView> {
    match frame {
        Some(f) => Some(f@),
        None => None,
    }
}

/// The percentages of the three rows, from top to bottom.
pub open spec fn row_percents() -> Seq<u16> {
    seq![HEADER_PERCENT, BODY_PERCENT, FOOTER_PERCENT]
}

/// The screen sizes that can be laid out.
pub open spec fn paintable(size: Area) -> bool {
    splittable(size, row_percents(), HORIZONTAL_MARGIN, VERTICAL_MARGIN)
}

/// The part of a screen of `size` that lies inside the margins.
pub open spec fn inner(size: Area) -> Area {
    size.inside(HORIZONTAL_MARGIN, VERTICAL_MARGIN)
}

/// Whether `frame` is a repaint of `doc` on a screen of `size`: it is what
/// `composed` gives on a header, a body and a footer that are rows of the
/// screen inside the margins.
pub open spec fn rendered(doc: DocumentView, size: Area, frame: Option<FrameView>) -> bool {
    exists|header: Area, body: Area, footer: Area|
        row_within(header, inner(size)) && row_within(body, inner(size)) && row_within(
            footer,
            inner(size),
        ) && frame == #[trigger] composed(doc, header, body, footer)
}

/// Whether the cursor of `doc` can be placed on a screen of `size` wherever
/// the body lies inside the margins: the cursor's row added to the left edge,
/// and the cursor's column added to the bottom edge, are coordinates.
pub open spec fn cursor_surely_fits(doc: DocumentView, size: Area) -> bool {
    &&& inner(size).x + doc.row <= u16::MAX
    &&& inner(size).y + inner(size).height + doc.column <= u16::MAX
}

/// The frame is a function of the document and of the three areas: the same
/// document on the same areas gives the same frame, whatever was composed in
/// between.
pub proof fn lemma_frame_is_function_of_state(
    a: DocumentView,
    b: DocumentView,
    header: Area,
    body: Area,
    footer: Area,
)
    requires
        a.lines == b.lines,
        a.row == b.row,
        a.column == b.column,
    ensures
        composed(a, header, body, footer) == composed(b, header, body, footer),
{
}

fn bold(fg: Color) -> (style: Style)
    ensures
        style == bold_style(fg),
{
    Style { fg, bg: Color::Reset, bold: true }
}

fn plain(fg: Color) -> (style: Style)
    ensures
        style == plain_style(fg),
{
    Style { fg, bg: Color::Reset, bold: false }
}

/// The lines of the title.
fn title() -> (lines: Vec<Line>)
    ensures
        lines@.map_values(|line: Line| line@) == title_lines(),
{
    let mut spans: Vec<Span> = Vec::new();
    spans.push(span("T", bold(Color::Yellow)));
    spans.push(span("erminal-typing ", plain(Color::Yellow)));
    spans.push(span("E", bold(Color::Yellow)));
    spans.push(span("xercise ", plain(Color::Yellow)));
    spans.push(span("A", bold(Color::Yellow)));
    spans.push(span("pplication", plain(Color::Yellow)));
    let first = Line { spans };
    proof {
        assert(first@ == title_lines()[0]);
    }
    let mut lines: Vec<Line> = Vec::new();
    lines.push(first);
    proof {
        assert(lines@.map_values(|line: Line| line@) == title_lines());
    }
    lines
}

/// The lines of the help.
fn help() -> (lines: Vec<Line>)
    ensures
        lines@.map_values(|line: Line| line@) == help_lines(),
{
    let mut heading: Vec<Span> = Vec::new();
    heading.push(span("HELP", plain(Color::White)));
    let mut escape: Vec<Span> = Vec::new();
    escape.push(span("esc : ", plain(Color::Blue)));
    escape.push(span("quit\n", plain(Color::White)));
    let mut interrupt: Vec<Span> = Vec::new();
    interrupt.push(span("ctrl-c : ", plain(Color::Blue)));
    interrupt.push(span("quit\n", plain(Color::White)));
    let first = Line { spans: heading };
    let second = Line { spans: escape };
    let third = Line { spans: interrupt };
    proof {
        assert(first@ == help_lines()[0]);
        assert(second@ == help_lines()[1]);
        assert(third@ == help_lines()[2]);
    }
    let mut lines: Vec<Line> = Vec::new();
    lines.push(first);
    lines.push(second);
    lines.push(third);
    proof {
        assert(lines@.map_values(|line: Line| line@) == help_lines());
    }
    lines
}

/// The characters of `line` from index `from` on.
fn tail_of(line: &Vec<char>, from: usize) -> (tail: Vec<char>)
    requires
        from <= line@.len(),
    ensures
        tail@ == line@.skip(from as int),
{
    let mut tail: Vec<char> = Vec::new();
    let mut i: usize = from;
    while i < line.len()
        invariant
            from <= i <= line@.len(),
            tail@ == line@.subrange(from as int, i as int),
        decreases line@.len() - i,
    {
        tail.push(line[i]);
        i = i + 1;
    }
    proof {
        assert(line@.subrange(from as int, line@.len() as int) == line@.skip(from as int));
    }
    tail
}

/// Line `i` of the practice text as it is shown.
fn styled_line(lines: &Vec<Vec<char>>, i: usize) -> (line: Line)
    requires
        i < lines@.len(),
    ensures
        line@ == shown_line(lines_view(lines@), i as int),
{
    let mut spans: Vec<Span> = Vec::new();
    if i == 0 && lines[0].len() > 0 {
        let mut head: Vec<char> = Vec::new();
        head.push(lines[0][0]);
        proof {
            assert(head@ == lines@[0]@.take(1));
        }
        spans.push(Span { content: head, style: bold(Color::White) });
        spans.push(Span { content: tail_of(&lines[0], 1), style: plain(Color::White) });
    } else {
        spans.push(Span { content: tail_of(&lines[i], 0), style: plain(Color::White) });
        proof {
            assert(lines@[i as int]@.skip(0) == lines@[i as int]@);
        }
    }
    let line = Line { spans };
    proof {
        assert(line@ == shown_line(lines_view(lines@), i as int));
    }
    line
}

/// The practice text as it is shown in the body.
fn styled_lines(lines: &Vec<Vec<char>>) -> (styled: Vec<Line>)
    ensures
        styled@.map_values(|line: Line| line@) == shown_lines(lines_view(lines@)),
{
    let mut styled: Vec<Line> = Vec::new();
    let mut i: usize = 0;
    while i < lines.len()
        invariant
            i <= lines@.len(),
            styled@.len() == i,
            forall|j: int| 0 <= j < i ==> (#[trigger] styled@[j])@ == shown_line(lines_view(lines@), j),
        decreases lines@.len() - i,
    {
        styled.push(styled_line(lines, i));
        i = i + 1;
    }
    proof {
        assert(styled@.map_values(|line: Line| line@) == shown_lines(lines_view(lines@)));
    }
    styled
}

/// The compositor of the typing exercise.
pub struct Compositor {
    doc: Document,
}

impl View for Compositor {
    type V = DocumentView;

    closed spec fn view(&self) -> DocumentView {
        self.doc@
    }
}

impl Compositor {
    /// Well-formedness: that of the document.
    pub open spec fn wf(&self) -> bool {
        self@.wf()
    }

    /// A compositor for `text`: its document holds the lines of the text, the
    /// cursor is at row 1, column 1, and the statistics are zero.
    pub fn new(text: &str) -> (compositor: Self)
        ensures
            compositor.wf(),
            compositor@.lines == document_lines(text@),
            compositor@.row == 1,
            compositor@.column == 1,
            compositor@.words == 0,
            compositor@.typos == 0,
            !compositor@.complete,
    {
        Compositor { doc: Document::new(text) }
    }

    /// The document.
    pub fn document(&self) -> (doc: &Document)
        ensures
            doc@ == self@,
    {
        &self.doc
    }

    /// Lays `size` out in header, body and footer, with the row percentages
    /// and the margins of this module, and composes the frame of a full
    /// repaint. Where `size` cannot be laid out there is no frame. Otherwise
    /// the result is what `compose` gives on the three rows that the layout
    /// solver returned: each spans the columns inside the margins, and where
    /// they lie from top to bottom is the solver's choice. A frame is owed
    /// wherever the cursor fits whatever that choice is.
    pub fn render(&self, size: Area) -> (frame: Option<Frame>)
        requires
            self.wf(),
        ensures
            !paintable(size) ==> frame is None,
            paintable(size) ==> rendered(self@, size, shown(frame)),
            paintable(size) && cursor_surely_fits(self@, size) ==> frame is Some,
    {
        let mut percents: Vec<u16> = Vec::new();
        percents.push(HEADER_PERCENT);
        percents.push(BODY_PERCENT);
        percents.push(FOOTER_PERCENT);
        proof {
            assert(percents@ == row_percents());
        }
        match split(size, &percents, HORIZONTAL_MARGIN, VERTICAL_MARGIN) {
            Some(rows) => {
                let frame = self.compose(rows[0], rows[1], rows[2]);
                proof {
                    assert(row_within(rows@[0], inner(size)));
                    assert(row_within(rows@[1], inner(size)));
                    assert(row_within(rows@[2], inner(size)));
                    assert(shown(frame) == composed(self@, rows@[0], rows@[1], rows@[2]));
                }
                frame
            },
            None => None,
        }
    }

    /// Composes the frame of a full repaint on the three given areas: the title
    /// in `header`, the practice text in `body`, the help in `footer`, and the
    /// cursor relative to `body`. There is no frame exactly where the cursor
    /// cannot be placed.
    pub fn compose(&self, header: Area, body: Area, footer: Area) -> (frame: Option<Frame>)
        requires
            self.wf(),
        ensures
            shown(frame) == composed(self@, header, body, footer),
    {
        let (row, column) = self.doc.cursor_position();
        if row > (u16::MAX - body.x) as usize || column > (u16::MAX - body.y) as usize {
            return None;
        }
        let top = Panel {
            area: header,
            lines: title(),
            block_style: plain(Color::Reset),
            text_style: plain(Color::Reset),
            border: Border::Rounded,
            alignment: Alignment::Left,
            trim: true,
        };
        let mid = Panel {
            area: body,
            lines: styled_lines(self.doc.lines()),
            block_style: Style { fg: Color::Unset, bg: Color::Unset, bold: false },
            text_style: plain(Color::Reset),
            border: Border::Rounded,
            alignment: Alignment::Left,
            trim: false,
        };
        let bot = Panel {
            area: footer,
            lines: help(),
            block_style: plain(Color::Reset),
            text_style: plain(Color::Reset),
            border: Border::Rounded,
            alignment: Alignment::Left,
            trim: true,
        };
        let cursor = self.get_cursor(body);
        Some(Frame { header: top, body: mid, footer: bot, cursor })
    }

    /// The terminal cursor relative to `area`: the cursor's row added to the
    /// area's column, and the cursor's column added to the area's row.
    pub fn get_cursor(&self, area: Area) -> (cursor: (u16, u16))
        requires
            self.wf(),
            cursor_fits(self@, area),
        ensures
            cursor.0 == area.x + self@.row,
            cursor.1 == area.y + self@.column,
            cursor == cursor_at(self@, area),
    {
        let (row, column) = self.doc.cursor_position();
        (area.x + row as u16, area.y + column as u16)
    }

    /// Records a keystroke that carries `ch`, by the typing policy of the
    /// document.
    pub fn type_char(&mut self, ch: char)
        requires
            old(self).wf(),
            old(self)@.words < usize::MAX,
        ensures
            final(self).wf(),
            final(self)@ == old(self)@.typed(ch),
    {
        let _ = self.doc.advance(ch);
    }

    /// The statistics accumulated so far.
    pub fn stats(&self) -> (stats: Stats)
        ensures
            stats.words == self@.words,
            stats.typos == self@.typos,
    {
        self.doc.stats()
    }
}

} // verus!
