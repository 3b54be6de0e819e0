use tea::app::{App, Effect};
use tea::event::{Event, Incoming, KeyCode, KeyEvent, KeyKind, Modifiers, Signal};
use tea::inbox::Inbox;

fn press(ch: char) -> Event {
    Event::Key(KeyEvent { code: KeyCode::Char(ch), modifiers: Modifiers::none(), kind: KeyKind::Press })
}

#[test]
fn empty_inbox_has_nothing() {
    let mut inbox = Inbox::new();
    assert!(inbox.is_empty());
    assert_eq!(inbox.pop(), None);
    assert!(inbox.is_empty());
}

#[test]
fn signals_go_before_input() {
    let mut inbox = Inbox::new();
    inbox.push_input(press('a'));
    inbox.push_signal(Signal::Suspend);
    inbox.push_input(Event::Resize(3, 4));
    inbox.push_signal(Signal::Continue);
    assert!(!inbox.is_empty());
    assert_eq!(inbox.pop(), Some(Incoming::Signal(Signal::Suspend)));
    assert_eq!(inbox.pop(), Some(Incoming::Signal(Signal::Continue)));
    assert_eq!(inbox.pop(), Some(Incoming::Input(press('a'))));
    inbox.push_signal(Signal::User);
    assert_eq!(inbox.pop(), Some(Incoming::Signal(Signal::User)));
    assert_eq!(inbox.pop(), Some(Incoming::Input(Event::Resize(3, 4))));
    assert_eq!(inbox.pop(), None);
    assert!(inbox.is_empty());
}

#[test]
fn handle_answers_signals_and_input() {
    let mut app = App::new("ab");
    assert_eq!(app.handle(Incoming::Signal(Signal::User)), vec![Effect::Render]);
    assert_eq!(app.handle(Incoming::Input(press('a'))), vec![Effect::Render]);
    assert_eq!(app.compositor().document().cursor_position(), (1, 2));
    assert_eq!(app.handle(Incoming::Input(Event::Other)), Vec::<Effect>::new());
    assert_eq!(
        app.handle(Incoming::Signal(Signal::Suspend)),
        vec![Effect::Restore, Effect::Stop]
    );
}
