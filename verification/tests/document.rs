use tea::document::{Document, State};
use tea::stats::Stats;
use tea::text::{chars_of, split_lines};

fn chars(text: &str) -> Vec<char> {
    text.chars().collect()
}

fn lines_of(text: &str) -> Vec<Vec<char>> {
    Document::new(text).lines().clone()
}

#[test]
fn state_starts_at_row_one_column_one() {
    let state = State::new();
    assert_eq!(state.row, 1);
    assert_eq!(state.column, 1);
}

#[test]
fn stats_start_at_zero() {
    let stats = Stats::new();
    assert_eq!(stats.words, 0);
    assert_eq!(stats.typos, 0);
}

#[test]
fn chars_of_reads_every_character() {
    assert_eq!(chars_of("héllo"), vec!['h', 'é', 'l', 'l', 'o']);
    assert_eq!(chars_of(""), Vec::<char>::new());
}

#[test]
fn split_lines_of_empty_text_is_empty() {
    assert_eq!(split_lines(""), Vec::<Vec<char>>::new());
}

#[test]
fn split_lines_agrees_with_std_lines() {
    let samples = [
        "ab\ncd",
        "ab\ncd\n",
        "a\r\nb\r\n",
        "a\rb",
        "a\r",
        "\n",
        "\n\n",
        "\r\n",
        "a\n\nb",
        "one line",
        "tail\r\r\n",
        tea::EXAMPLE_TEXT,
    ];
    for sample in samples {
        let expected: Vec<Vec<char>> = sample.lines().map(|l| l.chars().collect()).collect();
        assert_eq!(split_lines(sample), expected, "text {:?}", sample);
    }
}

#[test]
fn document_holds_the_lines_of_the_text() {
    assert_eq!(lines_of("ab\ncd"), vec![chars("ab"), chars("cd")]);
    assert_eq!(lines_of("ab\ncd\n"), vec![chars("ab"), chars("cd")]);
    assert_eq!(lines_of("a\r\nb"), vec![chars("a"), chars("b")]);
    assert_eq!(lines_of("a\n\nb"), vec![chars("a"), chars(""), chars("b")]);
}

#[test]
fn empty_text_is_one_empty_line() {
    assert_eq!(lines_of(""), vec![Vec::<char>::new()]);
    let doc = Document::new("");
    assert_eq!(doc.cursor_position(), (1, 1));
    assert_eq!(doc.expected(), None);
}

#[test]
fn new_document_starts_at_the_start_position() {
    for text in ["ab\ncd", "", "\n\nx", tea::EXAMPLE_TEXT] {
        let doc = Document::new(text);
        assert_eq!(doc.cursor_position(), (1, 1));
        assert_eq!(doc.stats(), Stats { words: 0, typos: 0 });
    }
}

#[test]
fn scenario_match_then_mismatch() {
    let mut doc = Document::new("ab\ncd");
    assert_eq!(doc.cursor_position(), (1, 1));
    assert!(doc.advance('a'));
    assert_eq!(doc.cursor_position(), (1, 2));
    assert_eq!(doc.stats().typos, 0);
    assert!(doc.advance('x'));
    assert_eq!(doc.stats().typos, 1);
    assert_eq!(doc.cursor_position(), (1, 2));
    assert_eq!(doc.stats().words, 2);
}

#[test]
fn hit_on_last_character_of_a_line_wraps() {
    let mut doc = Document::new("ab\ncd");
    doc.advance('a');
    doc.advance('b');
    assert_eq!(doc.cursor_position(), (2, 1));
    assert_eq!(doc.expected(), Some('c'));
}

#[test]
fn wrap_skips_empty_lines() {
    let mut doc = Document::new("a\n\n\nb");
    doc.advance('a');
    assert_eq!(doc.cursor_position(), (4, 1));
    assert_eq!(doc.expected(), Some('b'));
}

#[test]
fn cursor_on_empty_first_line_expects_the_next_text() {
    let mut doc = Document::new("\n\nxy");
    assert_eq!(doc.cursor_position(), (1, 1));
    assert_eq!(doc.expected(), Some('x'));
    doc.advance('x');
    assert_eq!(doc.cursor_position(), (3, 2));
    assert_eq!(doc.stats(), Stats { words: 1, typos: 0 });
}

#[test]
fn last_hit_completes_the_exercise() {
    let mut doc = Document::new("ab\n");
    doc.advance('a');
    assert_eq!(doc.expected(), Some('b'));
    doc.advance('b');
    assert_eq!(doc.cursor_position(), (1, 2));
    assert_eq!(doc.expected(), None);
    assert_eq!(doc.stats(), Stats { words: 2, typos: 0 });
    doc.advance('b');
    assert_eq!(doc.cursor_position(), (1, 2));
    assert_eq!(doc.stats(), Stats { words: 3, typos: 1 });
}

#[test]
fn every_keystroke_counts_a_word_and_changes_typos_or_cursor() {
    let mut doc = Document::new("ab\ncd");
    for ch in ['a', 'q', 'b', 'c', 'c', 'd', 'd'] {
        let before = (doc.cursor_position(), doc.stats(), doc.expected());
        assert!(doc.advance(ch));
        let after = (doc.cursor_position(), doc.stats(), doc.expected());
        assert_eq!(after.1.words, before.1.words + 1);
        if before.2 == Some(ch) {
            assert_eq!(after.1.typos, before.1.typos);
            assert!(after.0 > before.0 || after.2.is_none());
        } else {
            assert_eq!(after.1.typos, before.1.typos + 1);
            assert_eq!(after.0, before.0);
        }
    }
    assert_eq!(doc.stats(), Stats { words: 7, typos: 3 });
}

#[test]
fn typing_the_sample_text_to_its_end() {
    let mut doc = Document::new(tea::EXAMPLE_TEXT);
    let mut typed = 0usize;
    while let Some(ch) = doc.expected() {
        doc.advance(ch);
        typed += 1;
    }
    let total: usize = tea::EXAMPLE_TEXT.lines().map(|l| l.chars().count()).sum();
    assert_eq!(typed, total);
    assert_eq!(doc.stats(), Stats { words: total, typos: 0 });
}

#[test]
fn default_stats_are_zero() {
    assert_eq!(Stats::default(), Stats::new());
}
