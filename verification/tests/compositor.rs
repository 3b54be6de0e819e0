use tea::compositor::Compositor;
use tea::frame::{Alignment, Border, Color, Frame, Span, Style};
use tea::layout::{can_split, split, Area};

fn area(x: u16, y: u16, width: u16, height: u16) -> Area {
    Area { x, y, width, height }
}

fn plain(fg: Color) -> Style {
    Style { fg, bg: Color::Reset, bold: false }
}

fn bold(fg: Color) -> Style {
    Style { fg, bg: Color::Reset, bold: true }
}

fn span(text: &str, style: Style) -> Span {
    Span { content: text.chars().collect(), style }
}

fn composed(compositor: &Compositor) -> Frame {
    compositor
        .compose(area(2, 1, 76, 2), area(2, 3, 76, 16), area(2, 19, 76, 2))
        .expect("the cursor fits")
}

#[test]
fn compositor_starts_like_its_document() {
    let compositor = Compositor::new("ab\ncd");
    assert_eq!(compositor.document().cursor_position(), (1, 1));
    assert_eq!(compositor.stats().words, 0);
    assert_eq!(compositor.stats().typos, 0);
    assert_eq!(
        compositor.document().lines().clone(),
        vec![vec!['a', 'b'], vec!['c', 'd']]
    );
}

#[test]
fn type_char_follows_the_typing_policy() {
    let mut compositor = Compositor::new("ab\ncd");
    compositor.type_char('a');
    assert_eq!(compositor.document().cursor_position(), (1, 2));
    compositor.type_char('x');
    assert_eq!(compositor.stats().typos, 1);
    assert_eq!(compositor.stats().words, 2);
    assert_eq!(compositor.document().cursor_position(), (1, 2));
}

#[test]
fn get_cursor_adds_row_to_x_and_column_to_y() {
    let mut compositor = Compositor::new("abc\nd");
    assert_eq!(compositor.get_cursor(area(10, 20, 5, 5)), (11, 21));
    compositor.type_char('a');
    compositor.type_char('b');
    assert_eq!(compositor.document().cursor_position(), (1, 3));
    assert_eq!(compositor.get_cursor(area(10, 20, 5, 5)), (11, 23));
    compositor.type_char('c');
    assert_eq!(compositor.document().cursor_position(), (2, 1));
    assert_eq!(compositor.get_cursor(area(10, 20, 5, 5)), (12, 21));
}

#[test]
fn compose_places_panels_and_cursor() {
    let compositor = Compositor::new("ab\ncd");
    let frame = composed(&compositor);
    assert_eq!(frame.header.area, area(2, 1, 76, 2));
    assert_eq!(frame.body.area, area(2, 3, 76, 16));
    assert_eq!(frame.footer.area, area(2, 19, 76, 2));
    assert_eq!(frame.cursor, (3, 4));
}

#[test]
fn compose_has_no_frame_where_the_cursor_does_not_fit() {
    let compositor = Compositor::new("ab\ncd");
    let body = area(u16::MAX, 0, 0, 0);
    assert_eq!(compositor.compose(area(0, 0, 1, 1), body, area(0, 0, 1, 1)), None);
    let body = area(0, u16::MAX, 0, 0);
    assert_eq!(compositor.compose(area(0, 0, 1, 1), body, area(0, 0, 1, 1)), None);
    let body = area(u16::MAX - 1, u16::MAX - 1, 0, 0);
    let frame = compositor.compose(area(0, 0, 1, 1), body, area(0, 0, 1, 1)).unwrap();
    assert_eq!(frame.cursor, (u16::MAX, u16::MAX));
}

#[test]
fn header_shows_the_title() {
    let frame = composed(&Compositor::new("x"));
    assert_eq!(frame.header.lines.len(), 1);
    assert_eq!(
        frame.header.lines[0].spans,
        vec![
            span("T", bold(Color::Yellow)),
            span("erminal-typing ", plain(Color::Yellow)),
            span("E", bold(Color::Yellow)),
            span("xercise ", plain(Color::Yellow)),
            span("A", bold(Color::Yellow)),
            span("pplication", plain(Color::Yellow)),
        ]
    );
    assert_eq!(frame.header.block_style, plain(Color::Reset));
    assert_eq!(frame.header.text_style, plain(Color::Reset));
    assert_eq!(frame.header.border, Border::Rounded);
    assert_eq!(frame.header.alignment, Alignment::Left);
    assert!(frame.header.trim);
}

#[test]
fn footer_shows_the_help() {
    let frame = composed(&Compositor::new("x"));
    assert_eq!(frame.footer.lines.len(), 3);
    assert_eq!(frame.footer.lines[0].spans, vec![span("HELP", plain(Color::White))]);
    assert_eq!(
        frame.footer.lines[1].spans,
        vec![span("esc : ", plain(Color::Blue)), span("quit\n", plain(Color::White))]
    );
    assert_eq!(
        frame.footer.lines[2].spans,
        vec![span("ctrl-c : ", plain(Color::Blue)), span("quit\n", plain(Color::White))]
    );
    assert_eq!(frame.footer.block_style, plain(Color::Reset));
    assert_eq!(frame.footer.border, Border::Rounded);
    assert_eq!(frame.footer.alignment, Alignment::Left);
    assert!(frame.footer.trim);
}

#[test]
fn body_shows_the_text_with_a_bold_first_character() {
    let frame = composed(&Compositor::new("ab\ncd\n\ne"));
    assert_eq!(frame.body.lines.len(), 4);
    assert_eq!(
        frame.body.lines[0].spans,
        vec![span("a", bold(Color::White)), span("b", plain(Color::White))]
    );
    assert_eq!(frame.body.lines[1].spans, vec![span("cd", plain(Color::White))]);
    assert_eq!(frame.body.lines[2].spans, vec![span("", plain(Color::White))]);
    assert_eq!(frame.body.lines[3].spans, vec![span("e", plain(Color::White))]);
    assert_eq!(
        frame.body.block_style,
        Style { fg: Color::Unset, bg: Color::Unset, bold: false }
    );
    assert_eq!(frame.body.text_style, plain(Color::Reset));
    assert_eq!(frame.body.border, Border::Rounded);
    assert_eq!(frame.body.alignment, Alignment::Left);
    assert!(!frame.body.trim);
}

#[test]
fn body_of_a_one_character_line_and_of_an_empty_first_line() {
    let frame = composed(&Compositor::new("a"));
    assert_eq!(
        frame.body.lines[0].spans,
        vec![span("a", bold(Color::White)), span("", plain(Color::White))]
    );
    let frame = composed(&Compositor::new("\nb"));
    assert_eq!(frame.body.lines[0].spans, vec![span("", plain(Color::White))]);
    assert_eq!(frame.body.lines[1].spans, vec![span("b", plain(Color::White))]);
    let frame = composed(&Compositor::new(""));
    assert_eq!(frame.body.lines.len(), 1);
    assert_eq!(frame.body.lines[0].spans, vec![span("", plain(Color::White))]);
}

#[test]
fn composing_twice_gives_the_same_frame() {
    let mut compositor = Compositor::new(tea::EXAMPLE_TEXT);
    compositor.type_char('p');
    compositor.type_char('x');
    let first = composed(&compositor);
    let second = composed(&compositor);
    assert_eq!(first, second);
}

#[test]
fn rendering_twice_gives_the_same_frame() {
    let compositor = Compositor::new(tea::EXAMPLE_TEXT);
    let size = area(0, 0, 120, 40);
    let first = compositor.render(size);
    let second = compositor.render(size);
    assert!(first.is_some());
    assert_eq!(first, second);
}

#[test]
fn render_lays_out_three_rows_inside_the_margins() {
    let compositor = Compositor::new("ab\ncd");
    let frame = compositor.render(area(0, 0, 80, 22)).expect("the screen can be laid out");
    assert_eq!(frame.header.area, area(2, 1, 76, 2));
    assert_eq!(frame.body.area, area(2, 3, 76, 16));
    assert_eq!(frame.footer.area, area(2, 19, 76, 2));
    assert_eq!(frame.cursor, (3, 4));
    assert_eq!(frame, composed(&compositor));
}

#[test]
fn render_has_no_frame_for_a_screen_that_cannot_be_laid_out() {
    let compositor = Compositor::new("ab\ncd");
    assert_eq!(compositor.render(area(0, 0, 80, 822)), None);
    assert_eq!(compositor.render(area(1, 0, u16::MAX, 10)), None);
    assert_eq!(compositor.render(area(0, 1, 10, u16::MAX)), None);
    assert!(compositor.render(area(0, 0, 80, 821)).is_some());
}

#[test]
fn render_of_a_screen_smaller_than_the_margins() {
    let compositor = Compositor::new("ab");
    let frame = compositor.render(area(0, 0, 3, 1)).expect("no row is left, which is no error");
    assert_eq!(frame.header.area.height, 0);
    assert_eq!(frame.body.area.height, 0);
    assert_eq!(frame.footer.area.height, 0);
}

#[test]
fn can_split_tells_what_split_accepts() {
    let percents = vec![10u16, 80, 10];
    assert!(can_split(area(0, 0, 80, 24), &percents, 2, 1));
    assert!(can_split(area(0, 0, 80, 821), &percents, 2, 1));
    assert!(!can_split(area(0, 0, 80, 822), &percents, 2, 1));
    assert!(can_split(area(0, 0, 1, 822), &percents, 2, 1));
    assert!(!can_split(area(0, 0, 80, 24), &percents, 40000, 1));
    assert!(!can_split(area(0, 0, 80, 24), &percents, 1, 40000));
    assert!(!can_split(area(65000, 0, 600, 24), &percents, 2, 1));
    assert!(can_split(area(0, 0, 80, 24), &Vec::new(), 2, 1));
    assert!(split(area(0, 0, 80, 822), &percents, 2, 1).is_none());
}

#[test]
fn split_gives_one_row_for_each_percentage() {
    let rows = split(area(0, 0, 80, 24), &vec![10, 80, 10], 2, 1).unwrap();
    assert_eq!(rows.len(), 3);
    for row in &rows {
        assert_eq!(row.x, 2);
        assert_eq!(row.width, 76);
    }
    assert_eq!(rows[0].y, 1);
    assert_eq!(rows[0].y + rows[0].height, rows[1].y);
    assert_eq!(rows[1].y + rows[1].height, rows[2].y);
    assert_eq!(rows[2].y + rows[2].height, 23);
    let rows = split(area(5, 7, 40, 100), &vec![50, 50], 0, 0).unwrap();
    assert_eq!(rows, vec![area(5, 7, 40, 50), area(5, 57, 40, 50)]);
    assert_eq!(split(area(0, 0, 80, 24), &Vec::new(), 2, 1), Some(Vec::new()));
}

#[test]
fn render_owes_a_frame_where_the_cursor_fits_inside_the_margins() {
    let compositor = Compositor::new("ab\ncd");
    for size in [area(0, 0, 80, 24), area(0, 0, 4, 2), area(0, 0, 3, 1), area(7, 9, 200, 60)] {
        let frame = compositor.render(size).expect("a frame is owed");
        let inner = if size.width < 4 || size.height < 2 {
            area(0, 0, 0, 0)
        } else {
            area(size.x + 2, size.y + 1, size.width - 4, size.height - 2)
        };
        for panel in [&frame.header, &frame.body, &frame.footer] {
            assert_eq!(panel.area.x, inner.x);
            assert_eq!(panel.area.width, inner.width);
            assert!(panel.area.y <= inner.y + inner.height);
        }
        assert_eq!(frame.cursor.0, inner.x + 1);
    }
}
