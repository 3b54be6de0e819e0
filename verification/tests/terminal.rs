use tea::app::App;
use tea::terminal::{claim_term, restore_term, KeyboardFlags, TermOp};

fn wanted() -> KeyboardFlags {
    KeyboardFlags {
        disambiguate_escape_codes: true,
        report_event_types: false,
        report_alternate_keys: true,
        report_all_keys_as_escape_codes: false,
    }
}

fn undo(op: &TermOp) -> Option<TermOp> {
    match op {
        TermOp::EnableRawMode => Some(TermOp::DisableRawMode),
        TermOp::EnterAlternateScreen => Some(TermOp::LeaveAlternateScreen),
        TermOp::EnableMouseCapture => Some(TermOp::DisableMouseCapture),
        TermOp::EnableFocusChange => Some(TermOp::DisableFocusChange),
        TermOp::PushKeyboardFlags(_) => Some(TermOp::PopKeyboardFlags),
        _ => None,
    }
}

#[test]
fn claim_without_keyboard_flags() {
    assert_eq!(
        claim_term(false),
        vec![
            TermOp::EnableRawMode,
            TermOp::EnterAlternateScreen,
            TermOp::EnableMouseCapture,
            TermOp::EnableFocusChange,
            TermOp::ClearAll,
        ]
    );
}

#[test]
fn claim_with_keyboard_flags() {
    assert_eq!(
        claim_term(true),
        vec![
            TermOp::EnableRawMode,
            TermOp::EnterAlternateScreen,
            TermOp::EnableMouseCapture,
            TermOp::EnableFocusChange,
            TermOp::ClearAll,
            TermOp::PushKeyboardFlags(wanted()),
        ]
    );
}

#[test]
fn restore_without_keyboard_flags() {
    assert_eq!(
        restore_term(false),
        vec![
            TermOp::ShowCursor,
            TermOp::DisableFocusChange,
            TermOp::DisableMouseCapture,
            TermOp::LeaveAlternateScreen,
            TermOp::DisableRawMode,
        ]
    );
}

#[test]
fn restore_with_keyboard_flags() {
    assert_eq!(
        restore_term(true),
        vec![
            TermOp::ShowCursor,
            TermOp::PopKeyboardFlags,
            TermOp::DisableFocusChange,
            TermOp::DisableMouseCapture,
            TermOp::LeaveAlternateScreen,
            TermOp::DisableRawMode,
        ]
    );
}

#[test]
fn restore_takes_the_claim_back_in_the_opposite_order() {
    for enhanced in [false, true] {
        let mut expected = vec![TermOp::ShowCursor];
        expected.extend(claim_term(enhanced).iter().rev().filter_map(undo));
        assert_eq!(restore_term(enhanced), expected);
    }
}

#[test]
fn app_hands_out_the_same_commands() {
    let app = App::new("ab");
    for enhanced in [false, true] {
        assert_eq!(app.claim_term(enhanced), claim_term(enhanced));
        assert_eq!(app.restore_term(enhanced), restore_term(enhanced));
    }
}
