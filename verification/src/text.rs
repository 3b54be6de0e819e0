//! Text as sequences of characters: reading a string and cutting it into lines.

use vstd::prelude::*;

verus! {

/// Index of the first line feed in `s`, or `s.len()` when there is none.
pub open spec fn first_newline(s: Seq<char>) -> int
    decreases s.len(),
{
    if s.len() == 0 || s[0] == '\n' {
        0
    } else {
        1 + first_newline(s.drop_first())
    }
}

/// `line` without one trailing carriage return.
pub open spec fn strip_cr(line: Seq<char>) -> Seq<char> {
    if line.len() > 0 && line.last() == '\r' {
        line.drop_last()
    } else {
        line
    }
}

/// The lines of `s`. A line ends at a line feed; the line feed, and a carriage
/// return directly before it, belong to no line. Text after the last line feed
/// is a line of its own unless it is empty, so a final line feed adds no line
/// and the empty text has no lines.
pub open spec fn text_lines(s: Seq<char>) -> Seq<Seq<char>>
    decreases s.len(),
{
    if s.len() == 0 {
        Seq::empty()
    } else {
        let k = first_newline(s);
        if 0 <= k < s.len() {
            seq![strip_cr(s.take(k))] + text_lines(s.skip(k + 1))
        } else {
            seq![s]
        }
    }
}

/// The characters held by each vector of `lines`.
pub open spec fn lines_view(lines: Seq<Vec<char>>) -> Seq<Seq<char>> {
    lines.map_values(|line: Vec<char>| line@)
}

/// `first_newline` is the least index that holds a line feed.
pub proof fn lemma_first_newline(s: Seq<char>)
    ensures
        0 <= first_newline(s) <= s.len(),
        first_newline(s) < s.len() ==> s[first_newline(s)] == '\n',
        forall|j: int| 0 <= j < first_newline(s) ==> s[j] != '\n',
    decreases s.len(),
{
    if s.len() == 0 || s[0] == '\n' {
    } else {
        let rest = s.drop_first();
        lemma_first_newline(rest);
        assert forall|j: int| 0 <= j < first_newline(s) implies s[j] != '\n' by {
            if j > 0 {
                assert(s[j] == rest[j - 1]);
            }
        }
    }
}

/// An index with no line feed before it, which holds one or is the end of `s`,
/// is `first_newline(s)`.
pub proof fn lemma_first_newline_is(s: Seq<char>, k: int)
    requires
        0 <= k <= s.len(),
        forall|j: int| 0 <= j < k ==> s[j] != '\n',
        k < s.len() ==> s[k] == '\n',
    ensures
        first_newline(s) == k,
{
    lemma_first_newline(s);
    let f = first_newline(s);
    if f < k {
        assert(s[f] == '\n');
    } else if k < f {
        assert(s[k] == '\n');
    }
}

/// The characters of `text`, in order.
pub fn chars_of(text: &str) -> (chars: Vec<char>)
    ensures
        chars@ == text@,
{
    let mut chars: Vec<char> = Vec::new();
    for c in it: text.chars()
        invariant
            chars@ == it.seq().take(it.index()),
    {
        chars.push(c);
    }
    chars
}

/// Cuts `text` into its lines.
pub fn split_lines(text: &str) -> (lines: Vec<Vec<char>>)
    ensures
        lines_view(lines@) == text_lines(text@),
{
    let mut lines: Vec<Vec<char>> = Vec::new();
    let mut line: Vec<char> = Vec::new();
    proof {
        assert(line@ + text@.skip(0) == text@);
        assert(lines_view(lines@) + text_lines(text@) == text_lines(text@));
    }
    for c in it: text.chars()
        invariant
            it.seq() == text@,
            forall|j: int| 0 <= j < line@.len() ==> line@[j] != '\n',
            text_lines(text@) == lines_view(lines@) + text_lines(
                line@ + text@.skip(it.index()),
            ),
    {
        let ghost i = it.index();
        let ghost pending = line@ + text@.skip(i);
        proof {
            assert(pending.len() > 0);
            assert(pending[line@.len() as int] == c);
        }
        if c == '\n' {
            proof {
                lemma_first_newline_is(pending, line@.len() as int);
                assert(pending.take(line@.len() as int) == line@);
                assert(pending.skip(line@.len() as int + 1) == text@.skip(i + 1));
                assert(Seq::<char>::empty() + text@.skip(i + 1) == text@.skip(i + 1));
            }
            let n = line.len();
            if n > 0 && line[n - 1] == '\r' {
                line.pop();
                proof {
                    assert(line@ == strip_cr(pending.take(n as int)));
                }
            }
            let ghost before = lines@;
            let ghost cut = line@;
            lines.push(line);
            line = Vec::new();
            proof {
                assert(lines_view(lines@) == lines_view(before) + seq![cut]);
            }
        } else {
            let ghost before = line@;
            line.push(c);
            proof {
                assert(line@ + text@.skip(i + 1) == pending);
                assert forall|j: int| 0 <= j < line@.len() implies line@[j] != '\n' by {
                    if j < before.len() {
                        assert(line@[j] == before[j]);
                    }
                }
            }
        }
    }
    proof {
        assert(line@ + text@.skip(text@.len() as int) == line@);
    }
    if line.len() > 0 {
        proof {
            lemma_first_newline_is(line@, line@.len() as int);
        }
        let ghost before = lines@;
        let ghost last = line@;
        lines.push(line);
        proof {
            assert(lines_view(lines@) == lines_view(before) + seq![last]);
        }
    } else {
        proof {
            assert(lines_view(lines@) + Seq::<Seq<char>>::empty() == lines_view(lines@));
        }
    }
    lines
}

} // verus!
