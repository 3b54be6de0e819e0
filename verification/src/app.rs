//! The application as a state machine: each event of the loop is answered with
//! the effects that the driver of the loop has to perform, in order.

use vstd::prelude::*;
use crate::compositor::{cursor_surely_fits, paintable, rendered, shown, Compositor};
use crate::document::{document_lines, DocumentView};
use crate::event::{
    classify, request_of, Event, Incoming, KeyCode, KeyKind, Request, Signal,
};
use crate::frame::Frame;
use crate::layout::Area;
use crate::terminal::{claim_ops, restore_ops, TermMode, TermOp};

verus! {

/// Something that the driver of the loop has to do.
#[derive(Debug, Clone, Copy, PartialEq, Eq, Structural)]
pub enum Effect {
    /// Claim the terminal: run the commands of `App::claim_term`.
    Claim,
    /// Give the terminal back: run the commands of `App::restore_term`.
    Restore,
    /// Forget what is on the screen, so that the next repaint draws every cell.
    Clear,
    /// Repaint the whole screen: draw the frame of `App::render`.
    Render,
    /// Stop the whole process group.
    Stop,
    /// Leave the process with this exit code.
    Exit(i32),
}

/// The exit code of a process that ends on a failure for which the operating
/// system names no code of its own.
pub const FAILURE: i32 = 1;

/// The effects that answer `signal`. A suspension gives the terminal back and
/// stops the process group. A continuation claims the terminal again, clears
/// the screen and repaints once. The user-defined signal repaints.
pub open spec fn signal_effects(signal: Signal) -> Seq<Effect> {
    match signal {
        Signal::Suspend => seq![Effect::Restore, Effect::Stop],
        Signal::Continue => seq![Effect::Claim, Effect::Clear, Effect::Render],
        Signal::User => seq![Effect::Render],
    }
}

/// The effects that answer a request of the terminal. Quitting gives the
/// terminal back and leaves with exit code 0; typing and a plain redraw
/// repaint; anything else has no effect.
pub open spec fn request_effects(request: Request) -> Seq<Effect> {
    match request {
        Request::Quit => seq![Effect::Restore, Effect::Exit(0)],
        Request::Type(_) => seq![Effect::Render],
        Request::Redraw => seq![Effect::Render],
        Request::Ignore => Seq::empty(),
    }
}

/// The document after a request of the terminal: only typing changes it.
pub open spec fn request_document(doc: DocumentView, request: Request) -> DocumentView {
    match request {
        Request::Type(ch) => doc.typed(ch),
        _ => doc,
    }
}

/// The effects that answer what arrived.
pub open spec fn incoming_effects(incoming: Incoming) -> Seq<Effect> {
    match incoming {
        Incoming::Signal(signal) => signal_effects(signal),
        Incoming::Input(event) => request_effects(request_of(event)),
    }
}

/// The document after what arrived was answered: signals leave it as it is.
pub open spec fn incoming_document(doc: DocumentView, incoming: Incoming) -> DocumentView {
    match incoming {
        Incoming::Signal(_) => doc,
        Incoming::Input(event) => request_document(doc, request_of(event)),
    }
}

/// Whether a repaint is among `effects`.
pub open spec fn redraws(effects: Seq<Effect>) -> bool {
    effects.contains(Effect::Render)
}

/// The exit code after a failed stop of the process group: the error code of
/// the operating system, or the failure code where it gave none.
pub open spec fn stop_failure_code(os_error: Option<i32>) -> i32 {
    match os_error {
        Some(code) => code,
        None => FAILURE,
    }
}

/// The effects after the next event could not be read: give the terminal
/// back, then leave with the failure code.
pub open spec fn read_failure_effects() -> Seq<Effect> {
    seq![Effect::Restore, Effect::Exit(FAILURE)]
}

/// The effects after `effect` could not be performed: give the terminal back,
/// then leave with the failure code. Where giving the terminal back is what
/// failed, or the stop that follows it, that has been tried already, and only
/// leaving is left.
pub open spec fn effect_failure_effects(effect: Effect) -> Seq<Effect> {
    if effect == Effect::Restore || effect == Effect::Stop {
        seq![Effect::Exit(FAILURE)]
    } else {
        seq![Effect::Restore, Effect::Exit(FAILURE)]
    }
}

/// Whether `effects` end with leaving the process.
pub open spec fn leaves(effects: Seq<Effect>) -> bool {
    effects.len() > 0 && effects.last() is Exit
}

/// The effects that answer all of `events` in turn, up to and including the
/// first answer that leaves the process: what arrives after it is not
/// answered.
pub open spec fn answers(events: Seq<Incoming>) -> Seq<Effect>
    decreases events.len(),
{
    if events.len() == 0 {
        Seq::empty()
    } else if leaves(incoming_effects(events[0])) {
        incoming_effects(events[0])
    } else {
        incoming_effects(events[0]) + answers(events.drop_first())
    }
}

/// The effects of a whole session in which `events` arrive in this order: the
/// terminal is claimed and painted, then the events are answered.
pub open spec fn session_effects(events: Seq<Incoming>) -> Seq<Effect> {
    seq![Effect::Claim, Effect::Render] + answers(events)
}

/// Whether `incoming` is escape going down or held.
pub open spec fn is_escape(incoming: Incoming) -> bool {
    incoming matches Incoming::Input(Event::Key(key)) && key.kind != KeyKind::Release && key.code
        == KeyCode::Esc
}

/// A key that came up never asks for a repaint, and changes nothing.
pub proof fn lemma_release_never_redraws(event: Event, doc: DocumentView)
    requires
        event matches Event::Key(key) && key.kind == KeyKind::Release,
    ensures
        !redraws(request_effects(request_of(event))),
        request_document(doc, request_of(event)) == doc,
{
}

/// A resize always asks for exactly one repaint, whatever the document holds.
pub proof fn lemma_resize_always_redraws(columns: u16, rows: u16, doc: DocumentView)
    ensures
        request_effects(request_of(Event::Resize(columns, rows))) == seq![Effect::Render],
        redraws(request_effects(request_of(Event::Resize(columns, rows)))),
        request_document(doc, request_of(Event::Resize(columns, rows))) == doc,
{
    assert(seq![Effect::Render][0] == Effect::Render);
}

/// A key that goes down or is held and carries a character, other than `c`
/// with control alone, is answered with one repaint and nothing else, and it
/// leaves a trace in the document: the lines stay, the keystroke is counted,
/// and it is either a typo, counted as one, or a hit, which moves the cursor
/// forward or completes an exercise that was not complete.
pub proof fn lemma_typing_redraws_and_counts(event: Event, ch: char, doc: DocumentView)
    requires
        doc.wf(),
        event matches Event::Key(key) && key.kind != KeyKind::Release && key.code
            == KeyCode::Char(ch) && !(ch == 'c' && key.modifiers.only_control()),
    ensures
        request_effects(request_of(event)) == seq![Effect::Render],
        redraws(request_effects(request_of(event))),
        request_document(doc, request_of(event)) == doc.typed(ch),
        doc.typed(ch).lines == doc.lines,
        doc.typed(ch).words == doc.words + 1,
        doc.typed(ch).typos == doc.typos + 1 || doc.typed(ch).complete != doc.complete
            || doc.typed(ch).row > doc.row || (doc.typed(ch).row == doc.row && doc.typed(
            ch,
        ).column > doc.column),
{
    crate::document::lemma_keystroke_changes_document(doc, ch);
    assert(seq![Effect::Render][0] == Effect::Render);
}

/// Escape, going down or held, always gives the terminal back and then leaves
/// with exit code 0, and the commands that give it back leave a cooked
/// terminal with a visible cursor, whatever mode it was in.
pub proof fn lemma_escape_quits(event: Event, mode: TermMode, enhanced: bool)
    requires
        event matches Event::Key(key) && key.kind != KeyKind::Release && key.code
            == KeyCode::Esc,
    ensures
        request_effects(request_of(event)) == seq![Effect::Restore, Effect::Exit(0)],
        mode.apply_all(restore_ops(enhanced)).cooked(),
{
    crate::terminal::lemma_restore(mode, enhanced);
}

/// A suspension followed by a continuation repaints exactly once, after the
/// continuation, and the terminal is claimed before that repaint: the effects
/// of the two signals, in order, are restore, stop, claim, clear, render, and
/// the claim leaves the terminal in exclusive mode.
pub proof fn lemma_suspend_then_continue(mode: TermMode, enhanced: bool)
    ensures
        signal_effects(Signal::Suspend) + signal_effects(Signal::Continue) == seq![
            Effect::Restore,
            Effect::Stop,
            Effect::Claim,
            Effect::Clear,
            Effect::Render,
        ],
        !redraws(signal_effects(Signal::Suspend)),
        mode.apply_all(claim_ops(enhanced)).exclusive(),
{
    crate::terminal::lemma_claim(mode, enhanced);
    let s = signal_effects(Signal::Suspend);
    assert(s.len() == 2);
    assert(s[0] == Effect::Restore && s[1] == Effect::Stop);
}

/// Events that do not leave the process are all answered, in order, before
/// what follows them.
pub proof fn lemma_answers_append(before: Seq<Incoming>, after: Seq<Incoming>)
    requires
        forall|i: int| 0 <= i < before.len() ==> !leaves(incoming_effects(#[trigger] before[i])),
    ensures
        answers(before + after) == answers(before) + answers(after),
        forall|j: int| 0 <= j < answers(before).len() ==> !(#[trigger] answers(before)[j] is Exit),
    decreases before.len(),
{
    if before.len() == 0 {
        assert(before + after == after);
    } else {
        let first = incoming_effects(before[0]);
        let rest = before.drop_first();
        assert((before + after).drop_first() == rest + after);
        assert((before + after)[0] == before[0]);
        assert forall|i: int| 0 <= i < rest.len() implies !leaves(
            incoming_effects(#[trigger] rest[i]),
        ) by {
            assert(rest[i] == before[i + 1]);
        }
        lemma_answers_append(rest, after);
        assert(first + (answers(rest) + answers(after)) == (first + answers(rest)) + answers(
            after,
        ));
        assert forall|j: int| 0 <= j < answers(before).len() implies !(#[trigger] answers(
            before,
        )[j] is Exit) by {
            if j >= first.len() {
                assert(answers(before)[j] == answers(rest)[j - first.len()]);
            } else {
                assert(answers(before)[j] == first[j]);
            }
        }
    }
}

/// Escape ends a session at any point. Whatever arrived before it without
/// leaving the process is answered first, in order; then the terminal is
/// given back and the process leaves with exit code 0; nothing that arrives
/// after escape is answered. The commands that give the terminal back leave
/// it cooked with a visible cursor, whatever mode it was in.
pub proof fn lemma_escape_ends_session(
    before: Seq<Incoming>,
    escape: Incoming,
    after: Seq<Incoming>,
    mode: TermMode,
    enhanced: bool,
)
    requires
        forall|i: int| 0 <= i < before.len() ==> !leaves(incoming_effects(#[trigger] before[i])),
        is_escape(escape),
    ensures
        session_effects(before + seq![escape] + after) == session_effects(before) + seq![
            Effect::Restore,
            Effect::Exit(0),
        ],
        forall|j: int|
            0 <= j < session_effects(before).len() ==> !(#[trigger] session_effects(before)[j]
                is Exit),
        mode.apply_all(restore_ops(enhanced)).cooked(),
{
    let quit = seq![Effect::Restore, Effect::Exit(0)];
    let tail = seq![escape] + after;
    assert(before + seq![escape] + after == before + tail);
    lemma_answers_append(before, tail);
    assert(tail[0] == escape);
    assert(incoming_effects(escape) == quit);
    assert(quit.last() == Effect::Exit(0));
    assert(answers(tail) == quit);
    let opening = seq![Effect::Claim, Effect::Render];
    assert(opening + (answers(before) + quit) == (opening + answers(before)) + quit);
    assert forall|j: int| 0 <= j < session_effects(before).len() implies !(
    #[trigger] session_effects(before)[j] is Exit) by {
        if j >= 2 {
            assert(session_effects(before)[j] == answers(before)[j - 2]);
        }
    }
    crate::terminal::lemma_restore(mode, enhanced);
}

/// The typing exercise: the compositor with its document, and the exit code
/// that the process ends with.
pub struct App {
    compositor: Compositor,
    exit_code: i32,
}

impl View for App {
    type V = DocumentView;

    closed spec fn view(&self) -> DocumentView {
        self.compositor@
    }
}

impl App {
    /// Well-formedness: that of the document.
    pub open spec fn wf(&self) -> bool {
        self@.wf()
    }

    /// The exit code that the process ends with.
    pub closed spec fn code(&self) -> i32 {
        self.exit_code
    }

    /// An application that practises `text`: its document holds the lines of
    /// the text with the cursor at row 1, column 1, nothing is counted yet,
    /// and the exit code is 0.
    pub fn new(text: &str) -> (app: Self)
        ensures
            app.wf(),
            app@.lines == document_lines(text@),
            app@.row == 1,
            app@.column == 1,
            app@.words == 0,
            app@.typos == 0,
            !app@.complete,
            app.code() == 0,
    {
        App { compositor: Compositor::new(text), exit_code: 0 }
    }

    /// The compositor.
    pub fn compositor(&self) -> (compositor: &Compositor)
        ensures
            compositor@ == self@,
    {
        &self.compositor
    }

    /// The exit code that the process ends with.
    pub fn exit_code(&self) -> (code: i32)
        ensures
            code == self.code(),
    {
        self.exit_code
    }

    /// Whether another keystroke can be counted.
    pub fn can_type(&self) -> (ok: bool)
        ensures
            ok == (self@.words < usize::MAX),
    {
        self.compositor.stats().words < usize::MAX
    }

    /// The commands that claim the terminal, in order. `enhanced` says whether
    /// the terminal takes keyboard flags.
    pub fn claim_term(&self, enhanced: bool) -> (ops: Vec<TermOp>)
        ensures
            ops@ == claim_ops(enhanced),
    {
        crate::terminal::claim_term(enhanced)
    }

    /// The commands that give the terminal back, in order. `enhanced` says
    /// whether the terminal takes keyboard flags.
    pub fn restore_term(&self, enhanced: bool) -> (ops: Vec<TermOp>)
        ensures
            ops@ == restore_ops(enhanced),
    {
        crate::terminal::restore_term(enhanced)
    }

    /// The frame of a full repaint on a screen of `size`, as the compositor
    /// renders it.
    pub fn render(&self, size: Area) -> (frame: Option<Frame>)
        requires
            self.wf(),
        ensures
            !paintable(size) ==> frame is None,
            paintable(size) ==> rendered(self@, size, shown(frame)),
            paintable(size) && cursor_surely_fits(self@, size) ==> frame is Some,
    {
        self.compositor.render(size)
    }

    /// The effects that start a session: claim the terminal, then paint.
    pub fn run(&self) -> (effects: Vec<Effect>)
        ensures
            effects@ == seq![Effect::Claim, Effect::Render],
    {
        let mut effects: Vec<Effect> = Vec::new();
        effects.push(Effect::Claim);
        effects.push(Effect::Render);
        effects
    }

    /// The effects that end a session whose loop has ended: give the terminal
    /// back, then leave with the exit code.
    pub fn shutdown(&self) -> (effects: Vec<Effect>)
        ensures
            effects@ == seq![Effect::Restore, Effect::Exit(self.code())],
    {
        let mut effects: Vec<Effect> = Vec::new();
        effects.push(Effect::Restore);
        effects.push(Effect::Exit(self.exit_code));
        effects
    }

    /// Answers a signal with the effects of `signal_effects`. The document
    /// and the exit code stay as they are.
    pub fn handle_signal(&mut self, signal: Signal) -> (effects: Vec<Effect>)
        ensures
            effects@ == signal_effects(signal),
            final(self)@ == old(self)@,
            final(self).code() == old(self).code(),
    {
        let mut effects: Vec<Effect> = Vec::new();
        match signal {
            Signal::Suspend => {
                effects.push(Effect::Restore);
                effects.push(Effect::Stop);
            },
            Signal::Continue => {
                effects.push(Effect::Claim);
                effects.push(Effect::Clear);
                effects.push(Effect::Render);
            },
            Signal::User => {
                effects.push(Effect::Render);
            },
        }
        effects
    }

    /// The effects after the stop of the process group has failed: leave with
    /// the error code of the operating system, or with the failure code where
    /// it gave none.
    /// The terminal was given back before the stop was tried.
    pub fn stop_failed(&self, os_error: Option<i32>) -> (effects: Vec<Effect>)
        ensures
            effects@ == seq![Effect::Exit(stop_failure_code(os_error))],
    {
        let code = match os_error {
            Some(code) => code,
            None => FAILURE,
        };
        let mut effects: Vec<Effect> = Vec::new();
        effects.push(Effect::Exit(code));
        effects
    }

    /// The effects after the next event could not be read: give the terminal
    /// back, then leave with the failure code.
    pub fn read_failed(&self) -> (effects: Vec<Effect>)
        ensures
            effects@ == read_failure_effects(),
    {
        let mut effects: Vec<Effect> = Vec::new();
        effects.push(Effect::Restore);
        effects.push(Effect::Exit(FAILURE));
        effects
    }

    /// The effects after `effect` could not be performed, a failed claim of
    /// the terminal among them: give the terminal back, then leave with the
    /// failure code. Where giving the terminal back is what failed, or the
    /// stop that follows it, only leaving is left.
    pub fn effect_failed(&self, effect: Effect) -> (effects: Vec<Effect>)
        ensures
            effects@ == effect_failure_effects(effect),
    {
        let mut effects: Vec<Effect> = Vec::new();
        match effect {
            Effect::Restore | Effect::Stop => {},
            _ => {
                effects.push(Effect::Restore);
            },
        }
        effects.push(Effect::Exit(FAILURE));
        effects
    }

    /// Answers an event of the terminal. The event is classified by the rules
    /// of `request_of`; a typed character is recorded in the document; the
    /// effects are those of `request_effects`.
    pub fn handle_event(&mut self, event: Event) -> (effects: Vec<Effect>)
        requires
            old(self).wf(),
            request_of(event) is Type ==> old(self)@.words < usize::MAX,
        ensures
            final(self).wf(),
            effects@ == request_effects(request_of(event)),
            final(self)@ == request_document(old(self)@, request_of(event)),
            final(self).code() == old(self).code(),
    {
        let mut effects: Vec<Effect> = Vec::new();
        match classify(event) {
            Request::Quit => {
                effects.push(Effect::Restore);
                effects.push(Effect::Exit(0));
            },
            Request::Type(ch) => {
                self.compositor.type_char(ch);
                effects.push(Effect::Render);
            },
            Request::Redraw => {
                effects.push(Effect::Render);
            },
            Request::Ignore => {},
        }
        effects
    }

    /// Answers what arrived: a signal as `handle_signal` does, an event of the
    /// terminal as `handle_event` does.
    pub fn handle(&mut self, incoming: Incoming) -> (effects: Vec<Effect>)
        requires
            old(self).wf(),
            incoming matches Incoming::Input(event) && request_of(event) is Type ==> old(
                self,
            )@.words < usize::MAX,
        ensures
            final(self).wf(),
            effects@ == incoming_effects(incoming),
            final(self)@ == incoming_document(old(self)@, incoming),
            final(self).code() == old(self).code(),
    {
        match incoming {
            Incoming::Signal(signal) => self.handle_signal(signal),
            Incoming::Input(event) => self.handle_event(event),
        }
    }
}

} // verus!
