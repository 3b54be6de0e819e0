//! The practice text, the cursor that walks through it and the statistics.
//!
//! Typing policy. The cursor marks a row and a column of the text, both counted
//! from 1. The expected character is the one under the cursor; where the cursor
//! stands on an empty line it is the first character of the next line that has
//! text. A keystroke that carries the expected character is a hit: the cursor
//! moves to the character after it, wrapping to column 1 of the next line that
//! has text. When the last character of the text has been hit the exercise is
//! complete: the cursor rests on that character and nothing is expected any
//! more. Every other keystroke is a typo: it is counted and the cursor stays.
//! Every keystroke, hit or typo, is counted in `words`.

use vstd::prelude::*;
use crate::stats::Stats;
use crate::text::{lines_view, split_lines, text_lines};

verus! {

/// The lines that a document shows for `text`: the lines of the text, and one
/// empty line where the text has none.
pub open spec fn document_lines(text: Seq<char>) -> Seq<Seq<char>> {
    if text_lines(text).len() == 0 {
        seq![Seq::<char>::empty()]
    } else {
        text_lines(text)
    }
}

/// Index of the first line of `lines` at or after index `from` that has text,
/// or `lines.len()` when there is none.
pub open spec fn text_row(lines: Seq<Seq<char>>, from: int) -> int
    decreases lines.len() - from,
{
    if from < 0 || from >= lines.len() {
        lines.len() as int
    } else if lines[from].len() > 0 {
        from
    } else {
        text_row(lines, from + 1)
    }
}

/// Cursor position, both coordinates counted from 1.
#[derive(Debug, Clone, Copy, PartialEq, Eq, Structural)]
pub struct State {
    /// Cursor row.
    pub row: usize,
    /// Cursor column.
    pub column: usize,
}

impl State {
    /// The start position: row 1, column 1.
    pub fn new() -> (state: Self)
        ensures
            state.row == 1,
            state.column == 1,
    {
        State { row: 1, column: 1 }
    }
}

/// What a `Document` stands for.
pub struct DocumentView {
    /// The lines of the text, first line first.
    pub lines: Seq<Seq<char>>,
    /// Cursor row, counted from 1.
    pub row: int,
    /// Cursor column, counted from 1.
    pub column: int,
    /// Keystrokes counted so far.
    pub words: int,
    /// Typos counted so far.
    pub typos: int,
    /// Whether the last character of the text has been hit.
    pub complete: bool,
}

impl DocumentView {
    /// The cursor stands on the last character of the text: its line ends
    /// there and no later line has text.
    pub open spec fn at_end(self) -> bool {
        &&& self.lines[self.row - 1].len() > 0
        &&& self.column == self.lines[self.row - 1].len()
        &&& text_row(self.lines, self.row) == self.lines.len()
    }

    /// There is at least one line, the cursor stands on a character or in
    /// column 1 of an empty line, the counters are consistent, and an exercise
    /// that is complete has its cursor on the last character of the text.
    pub open spec fn wf(self) -> bool {
        &&& 1 <= self.row <= self.lines.len()
        &&& self.column == 1 || 1 <= self.column <= self.lines[self.row - 1].len()
        &&& 0 <= self.typos <= self.words <= usize::MAX
        &&& self.complete ==> self.at_end()
    }

    /// Row and column, counted from 1, of the expected character.
    pub open spec fn target(self) -> Option<(int, int)> {
        if self.complete {
            None
        } else if self.lines[self.row - 1].len() > 0 {
            Some((self.row, self.column))
        } else if text_row(self.lines, self.row) < self.lines.len() {
            Some((text_row(self.lines, self.row) + 1, 1))
        } else {
            None
        }
    }

    /// The character that the next keystroke should carry.
    pub open spec fn expected(self) -> Option<char> {
        match self.target() {
            Some((row, column)) => Some(self.lines[row - 1][column - 1]),
            None => None,
        }
    }

    /// The document after a hit on the expected character.
    pub open spec fn hit(self) -> DocumentView {
        let (row, column) = self.target()->0;
        if column < self.lines[row - 1].len() {
            DocumentView { row: row, column: column + 1, ..self }
        } else if text_row(self.lines, row) < self.lines.len() {
            DocumentView { row: text_row(self.lines, row) + 1, column: 1, ..self }
        } else {
            DocumentView { row: row, column: column, complete: true, ..self }
        }
    }

    /// The document after a keystroke that carries `ch`.
    pub open spec fn typed(self, ch: char) -> DocumentView {
        let counted = DocumentView { words: self.words + 1, ..self };
        if self.expected() == Some(ch) {
            counted.hit()
        } else {
            DocumentView { typos: self.typos + 1, ..counted }
        }
    }
}

/// `text_row` finds a line with text, skipping only empty lines.
pub proof fn lemma_text_row(lines: Seq<Seq<char>>, from: int)
    requires
        0 <= from <= lines.len(),
    ensures
        from <= text_row(lines, from) <= lines.len(),
        text_row(lines, from) < lines.len() ==> lines[text_row(lines, from)].len() > 0,
        forall|i: int| from <= i < text_row(lines, from) ==> lines[i].len() == 0,
    decreases lines.len() - from,
{
    if from < lines.len() && lines[from].len() == 0 {
        lemma_text_row(lines, from + 1);
    }
}

/// A keystroke keeps a well-formed document well-formed, unless the keystroke
/// counter is at its limit.
pub proof fn lemma_typed_wf(v: DocumentView, ch: char)
    requires
        v.wf(),
        v.words < usize::MAX,
    ensures
        v.typed(ch).wf(),
        v.typed(ch).lines == v.lines,
{
    lemma_text_row(v.lines, v.row);
    if v.target() is Some {
        let (row, column) = v.target()->0;
        lemma_text_row(v.lines, row);
    }
}

/// Every keystroke leaves a trace, and none changes the lines. It is counted,
/// and then either it is a typo, counted as one with the cursor where it was,
/// or it is a hit, which counts no typo and moves the cursor forward or
/// completes an exercise that was not complete.
pub proof fn lemma_keystroke_changes_document(v: DocumentView, ch: char)
    requires
        v.wf(),
    ensures
        v.typed(ch).words == v.words + 1,
        v.expected() != Some(ch) ==> {
            &&& v.typed(ch).typos == v.typos + 1
            &&& v.typed(ch).row == v.row
            &&& v.typed(ch).column == v.column
            &&& v.typed(ch).complete == v.complete
        },
        v.expected() == Some(ch) ==> {
            &&& v.typed(ch).typos == v.typos
            &&& (v.typed(ch).complete && !v.complete) || v.typed(ch).row > v.row || (v.typed(
                ch,
            ).row == v.row && v.typed(ch).column > v.column)
        },
        v.typed(ch).lines == v.lines,
{
    lemma_text_row(v.lines, v.row);
    if v.target() is Some {
        let (row, column) = v.target()->0;
        lemma_text_row(v.lines, row);
    }
}

/// The practice text with its cursor and statistics.
pub struct Document {
    lines: Vec<Vec<char>>,
    cursor: State,
    stats: Stats,
    complete: bool,
}

impl View for Document {
    type V = DocumentView;

    closed spec fn view(&self) -> DocumentView {
        DocumentView {
            lines: lines_view(self.lines@),
            row: self.cursor.row as int,
            column: self.cursor.column as int,
            words: self.stats.words as int,
            typos: self.stats.typos as int,
            complete: self.complete,
        }
    }
}

impl Document {
    /// Well-formedness of the document, stated on its view.
    pub open spec fn wf(&self) -> bool {
        self@.wf()
    }

    /// A document over the lines of `text`, with the cursor at the start
    /// position and the statistics at zero. The empty text gives one empty line.
    pub fn new(text: &str) -> (doc: Self)
        ensures
            doc.wf(),
            doc@.lines == document_lines(text@),
            doc@.row == 1,
            doc@.column == 1,
            doc@.words == 0,
            doc@.typos == 0,
            !doc@.complete,
    {
        let mut lines = split_lines(text);
        if lines.len() == 0 {
            lines.push(Vec::new());
            proof {
                assert(lines_view(lines@) == seq![Seq::<char>::empty()]);
            }
        }
        Document { lines, cursor: State::new(), stats: Stats::new(), complete: false }
    }

    /// The lines of the text, first line first.
    pub fn lines(&self) -> (lines: &Vec<Vec<char>>)
        ensures
            lines_view(lines@) == self@.lines,
    {
        &self.lines
    }

    /// Row and column of the cursor, both counted from 1.
    pub fn cursor_position(&self) -> (position: (usize, usize))
        ensures
            position.0 == self@.row,
            position.1 == self@.column,
    {
        (self.cursor.row, self.cursor.column)
    }

    /// The statistics accumulated so far.
    pub fn stats(&self) -> (stats: Stats)
        ensures
            stats.words == self@.words,
            stats.typos == self@.typos,
    {
        self.stats
    }

    /// Index of the first line at or after index `from` that has text, or the
    /// number of lines when there is none.
    fn text_row(&self, from: usize) -> (row: usize)
        requires
            from <= self@.lines.len(),
        ensures
            row == text_row(self@.lines, from as int),
    {
        let mut row = from;
        while row < self.lines.len() && self.lines[row].len() == 0
            invariant
                from <= row <= self.lines@.len(),
                text_row(self@.lines, from as int) == text_row(self@.lines, row as int),
            decreases self.lines@.len() - row,
        {
            row = row + 1;
        }
        row
    }

    /// Row and column, counted from 1, of the expected character.
    fn target(&self) -> (target: Option<(usize, usize)>)
        requires
            self.wf(),
        ensures
            match target {
                Some((row, column)) => self@.target() == Some((row as int, column as int)),
                None => self@.target() is None,
            },
    {
        if self.complete {
            None
        } else if self.lines[self.cursor.row - 1].len() > 0 {
            Some((self.cursor.row, self.cursor.column))
        } else {
            let row = self.text_row(self.cursor.row);
            if row < self.lines.len() {
                Some((row + 1, 1))
            } else {
                None
            }
        }
    }

    /// The character that the next keystroke should carry; `None` when the
    /// exercise is complete or the text has no character at or after the cursor.
    pub fn expected(&self) -> (expected: Option<char>)
        requires
            self.wf(),
        ensures
            expected == self@.expected(),
    {
        proof {
            lemma_text_row(self@.lines, self@.row);
        }
        match self.target() {
            Some((row, column)) => Some(self.lines[row - 1][column - 1]),
            None => None,
        }
    }

    /// Records a keystroke that carries `ch`, by the typing policy of this
    /// module, and asks for a redraw.
    pub fn advance(&mut self, ch: char) -> (redraw: bool)
        requires
            old(self).wf(),
            old(self)@.words < usize::MAX,
        ensures
            final(self).wf(),
            final(self)@ == old(self)@.typed(ch),
            redraw,
    {
        proof {
            lemma_typed_wf(self@, ch);
            lemma_text_row(self@.lines, self@.row);
        }
        let target = self.target();
        self.stats.words = self.stats.words + 1;
        match target {
            Some((row, column)) if self.lines[row - 1][column - 1] == ch => {
                proof {
                    lemma_text_row(old(self)@.lines, row as int);
                }
                if column < self.lines[row - 1].len() {
                    self.cursor = State { row: row, column: column + 1 };
                } else {
                    let next = self.text_row(row);
                    if next < self.lines.len() {
                        self.cursor = State { row: next + 1, column: 1 };
                    } else {
                        self.cursor = State { row: row, column: column };
                        self.complete = true;
                    }
                }
            },
            _ => {
                self.stats.typos = self.stats.typos + 1;
            },
        }
        true
    }
}

} // verus!
