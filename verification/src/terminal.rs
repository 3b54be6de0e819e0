//! The terminal's modes: the commands that claim the terminal for the
//! application, the commands that give it back, and a model of what they do.

use vstd::prelude::*;

verus! {

/// What the terminal reports about keys beyond the plain protocol.
#[derive(Debug, Clone, Copy, PartialEq, Eq, Structural)]
pub struct KeyboardFlags {
    /// Escape codes that could be mistaken for keys are told apart.
    pub disambiguate_escape_codes: bool,
    /// Repeats and releases are reported, not only presses.
    pub report_event_types: bool,
    /// The key that a shifted or remapped key stands for is reported too.
    pub report_alternate_keys: bool,
    /// Keys that carry text are reported as escape codes too.
    pub report_all_keys_as_escape_codes: bool,
}

/// One command that changes a mode of the terminal.
#[derive(Debug, Clone, Copy, PartialEq, Eq, Structural)]
pub enum TermOp {
    EnableRawMode,
    DisableRawMode,
    EnterAlternateScreen,
    LeaveAlternateScreen,
    EnableMouseCapture,
    DisableMouseCapture,
    EnableFocusChange,
    DisableFocusChange,
    /// Clears all cells; no mode changes.
    ClearAll,
    /// Pushes a set of keyboard flags on the terminal's stack.
    PushKeyboardFlags(KeyboardFlags),
    /// Pops the set of keyboard flags pushed last.
    PopKeyboardFlags,
    ShowCursor,
}

/// The modes of a terminal, as far as the application changes them.
pub struct TermMode {
    /// Input arrives key by key, unechoed.
    pub raw: bool,
    /// The alternate screen is shown.
    pub alternate_screen: bool,
    /// Mouse events are reported.
    pub mouse_capture: bool,
    /// Focus changes are reported.
    pub focus_change: bool,
    /// The sets of keyboard flags pushed so far, the last one on top.
    pub keyboard: Seq<KeyboardFlags>,
    /// The cursor is shown.
    pub cursor_visible: bool,
}

impl TermMode {
    /// The mode after `op`.
    pub open spec fn apply(self, op: TermOp) -> TermMode {
        match op {
            TermOp::EnableRawMode => TermMode { raw: true, ..self },
            TermOp::DisableRawMode => TermMode { raw: false, ..self },
            TermOp::EnterAlternateScreen => TermMode { alternate_screen: true, ..self },
            TermOp::LeaveAlternateScreen => TermMode { alternate_screen: false, ..self },
            TermOp::EnableMouseCapture => TermMode { mouse_capture: true, ..self },
            TermOp::DisableMouseCapture => TermMode { mouse_capture: false, ..self },
            TermOp::EnableFocusChange => TermMode { focus_change: true, ..self },
            TermOp::DisableFocusChange => TermMode { focus_change: false, ..self },
            TermOp::ClearAll => self,
            TermOp::PushKeyboardFlags(flags) => TermMode {
                keyboard: self.keyboard.push(flags),
                ..self
            },
            TermOp::PopKeyboardFlags => TermMode {
                keyboard: if self.keyboard.len() > 0 {
                    self.keyboard.drop_last()
                } else {
                    self.keyboard
                },
                ..self
            },
            TermOp::ShowCursor => TermMode { cursor_visible: true, ..self },
        }
    }

    /// The mode after the commands of `ops`, first command first.
    pub open spec fn apply_all(self, ops: Seq<TermOp>) -> TermMode
        decreases ops.len(),
    {
        if ops.len() == 0 {
            self
        } else {
            self.apply(ops[0]).apply_all(ops.drop_first())
        }
    }

    /// The terminal belongs to the shell: cooked input on the main screen, no
    /// mouse or focus reports, the cursor shown.
    pub open spec fn cooked(self) -> bool {
        &&& !self.raw
        &&& !self.alternate_screen
        &&& !self.mouse_capture
        &&& !self.focus_change
        &&& self.cursor_visible
    }

    /// The terminal belongs to the application: raw input on the alternate
    /// screen, with mouse and focus reports.
    pub open spec fn exclusive(self) -> bool {
        &&& self.raw
        &&& self.alternate_screen
        &&& self.mouse_capture
        &&& self.focus_change
    }
}

/// The command that takes `op` back, for the commands that can be taken back.
pub open spec fn undo(op: TermOp) -> Option<TermOp> {
    match op {
        TermOp::EnableRawMode => Some(TermOp::DisableRawMode),
        TermOp::EnterAlternateScreen => Some(TermOp::LeaveAlternateScreen),
        TermOp::EnableMouseCapture => Some(TermOp::DisableMouseCapture),
        TermOp::EnableFocusChange => Some(TermOp::DisableFocusChange),
        TermOp::PushKeyboardFlags(_) => Some(TermOp::PopKeyboardFlags),
        _ => None,
    }
}

/// The commands that take `ops` back: last command first, and nothing for a
/// command that cannot be taken back.
pub open spec fn undone(ops: Seq<TermOp>) -> Seq<TermOp>
    decreases ops.len(),
{
    if ops.len() == 0 {
        Seq::empty()
    } else {
        match undo(ops.last()) {
            Some(back) => seq![back] + undone(ops.drop_last()),
            None => undone(ops.drop_last()),
        }
    }
}

/// The keyboard flags that the application asks for.
pub open spec fn wanted_flags() -> KeyboardFlags {
    KeyboardFlags {
        disambiguate_escape_codes: true,
        report_event_types: false,
        report_alternate_keys: true,
        report_all_keys_as_escape_codes: false,
    }
}

/// The commands that claim the terminal. `enhanced` says whether the terminal
/// takes keyboard flags.
pub open spec fn claim_ops(enhanced: bool) -> Seq<TermOp> {
    let always = seq![
        TermOp::EnableRawMode,
        TermOp::EnterAlternateScreen,
        TermOp::EnableMouseCapture,
        TermOp::EnableFocusChange,
        TermOp::ClearAll,
    ];
    if enhanced {
        always.push(TermOp::PushKeyboardFlags(wanted_flags()))
    } else {
        always
    }
}

/// The commands that give the terminal back: the cursor is shown again, then
/// what `claim_ops` did is taken back, last command first.
pub open spec fn restore_ops(enhanced: bool) -> Seq<TermOp> {
    let always = seq![
        TermOp::DisableFocusChange,
        TermOp::DisableMouseCapture,
        TermOp::LeaveAlternateScreen,
        TermOp::DisableRawMode,
    ];
    if enhanced {
        seq![TermOp::ShowCursor, TermOp::PopKeyboardFlags] + always
    } else {
        seq![TermOp::ShowCursor] + always
    }
}

/// Unfolds `apply_all` by one command.
proof fn lemma_apply_all_step(mode: TermMode, ops: Seq<TermOp>)
    requires
        ops.len() > 0,
    ensures
        mode.apply_all(ops) == mode.apply(ops[0]).apply_all(ops.drop_first()),
{
}

/// What the claim does to a mode: every exclusive mode is on, the wanted flags
/// are pushed where the terminal takes them, and the cursor is untouched.
pub open spec fn claimed(mode: TermMode, enhanced: bool) -> TermMode {
    TermMode {
        raw: true,
        alternate_screen: true,
        mouse_capture: true,
        focus_change: true,
        keyboard: if enhanced {
            mode.keyboard.push(wanted_flags())
        } else {
            mode.keyboard
        },
        cursor_visible: mode.cursor_visible,
    }
}

/// What the restore does to a mode: every exclusive mode is off, the cursor is
/// shown, and one set of flags is popped where the terminal takes them.
pub open spec fn restored(mode: TermMode, enhanced: bool) -> TermMode {
    TermMode {
        raw: false,
        alternate_screen: false,
        mouse_capture: false,
        focus_change: false,
        keyboard: if enhanced && mode.keyboard.len() > 0 {
            mode.keyboard.drop_last()
        } else {
            mode.keyboard
        },
        cursor_visible: true,
    }
}

/// The claim commands turn any mode into the claimed one, which is exclusive.
pub proof fn lemma_claim(mode: TermMode, enhanced: bool)
    ensures
        mode.apply_all(claim_ops(enhanced)) == claimed(mode, enhanced),
        claimed(mode, enhanced).exclusive(),
{
    let ops = claim_ops(enhanced);
    let m1 = mode.apply(ops[0]);
    let o1 = ops.drop_first();
    lemma_apply_all_step(mode, ops);
    let m2 = m1.apply(o1[0]);
    let o2 = o1.drop_first();
    lemma_apply_all_step(m1, o1);
    let m3 = m2.apply(o2[0]);
    let o3 = o2.drop_first();
    lemma_apply_all_step(m2, o2);
    let m4 = m3.apply(o3[0]);
    let o4 = o3.drop_first();
    lemma_apply_all_step(m3, o3);
    let m5 = m4.apply(o4[0]);
    let o5 = o4.drop_first();
    lemma_apply_all_step(m4, o4);
    if enhanced {
        let m6 = m5.apply(o5[0]);
        let o6 = o5.drop_first();
        lemma_apply_all_step(m5, o5);
        assert(o6.len() == 0);
        assert(m6 == claimed(mode, enhanced));
    } else {
        assert(o5.len() == 0);
        assert(m5 == claimed(mode, enhanced));
    }
}

/// The restore commands turn any mode into the restored one, which is cooked.
pub proof fn lemma_restore(mode: TermMode, enhanced: bool)
    ensures
        mode.apply_all(restore_ops(enhanced)) == restored(mode, enhanced),
        restored(mode, enhanced).cooked(),
{
    let ops = restore_ops(enhanced);
    let m1 = mode.apply(ops[0]);
    let o1 = ops.drop_first();
    lemma_apply_all_step(mode, ops);
    let m2 = m1.apply(o1[0]);
    let o2 = o1.drop_first();
    lemma_apply_all_step(m1, o1);
    let m3 = m2.apply(o2[0]);
    let o3 = o2.drop_first();
    lemma_apply_all_step(m2, o2);
    let m4 = m3.apply(o3[0]);
    let o4 = o3.drop_first();
    lemma_apply_all_step(m3, o3);
    let m5 = m4.apply(o4[0]);
    let o5 = o4.drop_first();
    lemma_apply_all_step(m4, o4);
    if enhanced {
        let m6 = m5.apply(o5[0]);
        let o6 = o5.drop_first();
        lemma_apply_all_step(m5, o5);
        assert(o6.len() == 0);
        assert(m6 == restored(mode, enhanced));
    } else {
        assert(o5.len() == 0);
        assert(m5 == restored(mode, enhanced));
    }
}

/// Giving the terminal back after claiming it leaves a cooked terminal as it
/// was found, whatever happened to the cursor in between.
pub proof fn lemma_restore_after_claim(mode: TermMode, enhanced: bool, cursor_visible: bool)
    requires
        mode.cooked(),
    ensures
        (TermMode {
            cursor_visible,
            ..mode.apply_all(claim_ops(enhanced))
        }).apply_all(restore_ops(enhanced)) == mode,
{
    lemma_claim(mode, enhanced);
    let during = TermMode { cursor_visible, ..claimed(mode, enhanced) };
    lemma_restore(during, enhanced);
    if enhanced {
        assert(mode.keyboard.push(wanted_flags()).drop_last() == mode.keyboard);
    }
    assert(restored(during, enhanced).keyboard == mode.keyboard);
}

/// The restore shows the cursor and then takes the claim back in the opposite
/// order.
pub proof fn lemma_restore_reverses_claim(enhanced: bool)
    ensures
        restore_ops(enhanced) == seq![TermOp::ShowCursor] + undone(claim_ops(enhanced)),
{
    let ops = claim_ops(enhanced);
    let always = seq![
        TermOp::EnableRawMode,
        TermOp::EnterAlternateScreen,
        TermOp::EnableMouseCapture,
        TermOp::EnableFocusChange,
        TermOp::ClearAll,
    ];
    let a4 = always.drop_last();
    let a3 = a4.drop_last();
    let a2 = a3.drop_last();
    let a1 = a2.drop_last();
    let a0 = a1.drop_last();
    assert(a0.len() == 0);
    assert(undone(a0) == Seq::<TermOp>::empty());
    assert(undone(a1) == seq![TermOp::DisableRawMode] + undone(a0));
    assert(undone(a2) == seq![TermOp::LeaveAlternateScreen] + undone(a1));
    assert(undone(a3) == seq![TermOp::DisableMouseCapture] + undone(a2));
    assert(undone(a4) == seq![TermOp::DisableFocusChange] + undone(a3));
    assert(undone(always) == undone(a4));
    let back = seq![
        TermOp::DisableFocusChange,
        TermOp::DisableMouseCapture,
        TermOp::LeaveAlternateScreen,
        TermOp::DisableRawMode,
    ];
    assert(undone(always) == back);
    if enhanced {
        assert(ops.drop_last() == always);
        assert(undone(ops) == seq![TermOp::PopKeyboardFlags] + undone(always));
        assert(restore_ops(enhanced) == seq![TermOp::ShowCursor] + undone(ops));
    } else {
        assert(restore_ops(enhanced) == seq![TermOp::ShowCursor] + undone(ops));
    }
}

/// The commands that claim the terminal for the application, in the order in
/// which they are to be run. `enhanced` says whether the terminal takes
/// keyboard flags.
pub fn claim_term(enhanced: bool) -> (ops: Vec<TermOp>)
    ensures
        ops@ == claim_ops(enhanced),
{
    let mut ops: Vec<TermOp> = Vec::new();
    ops.push(TermOp::EnableRawMode);
    ops.push(TermOp::EnterAlternateScreen);
    ops.push(TermOp::EnableMouseCapture);
    ops.push(TermOp::EnableFocusChange);
    ops.push(TermOp::ClearAll);
    if enhanced {
        ops.push(
            TermOp::PushKeyboardFlags(
                KeyboardFlags {
                    disambiguate_escape_codes: true,
                    report_event_types: false,
                    report_alternate_keys: true,
                    report_all_keys_as_escape_codes: false,
                },
            ),
        );
    }
    proof {
        assert(ops@ == claim_ops(enhanced));
    }
    ops
}

/// The commands that give the terminal back to the shell, in the order in
/// which they are to be run. `enhanced` says whether the terminal takes
/// keyboard flags.
pub fn restore_term(enhanced: bool) -> (ops: Vec<TermOp>)
    ensures
        ops@ == restore_ops(enhanced),
{
    let mut ops: Vec<TermOp> = Vec::new();
    ops.push(TermOp::ShowCursor);
    if enhanced {
        ops.push(TermOp::PopKeyboardFlags);
    }
    ops.push(TermOp::DisableFocusChange);
    ops.push(TermOp::DisableMouseCapture);
    ops.push(TermOp::LeaveAlternateScreen);
    ops.push(TermOp::DisableRawMode);
    proof {
        assert(ops@ == restore_ops(enhanced));
    }
    ops
}

} // verus!
