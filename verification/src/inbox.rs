//! What has arrived and waits to be handled. Where signals and input wait at
//! the same time, signals go first; within each source, what came first goes
//! first.

use std::collections::VecDeque;
use vstd::prelude::*;
use crate::event::{Event, Incoming, Signal};

verus! {

/// What an `Inbox` stands for.
pub struct InboxView {
    /// The signals that wait, the oldest first.
    pub signals: Seq<Signal>,
    /// The events of the terminal that wait, the oldest first.
    pub inputs: Seq<Event>,
}

impl InboxView {
    /// What is handled next: the oldest signal, or, where no signal waits, the
    /// oldest event of the terminal.
    pub open spec fn next(self) -> Option<Incoming> {
        if self.signals.len() > 0 {
            Some(Incoming::Signal(self.signals[0]))
        } else if self.inputs.len() > 0 {
            Some(Incoming::Input(self.inputs[0]))
        } else {
            None
        }
    }

    /// What still waits once `next` has been taken out.
    pub open spec fn rest(self) -> InboxView {
        if self.signals.len() > 0 {
            InboxView { signals: self.signals.drop_first(), inputs: self.inputs }
        } else if self.inputs.len() > 0 {
            InboxView { signals: self.signals, inputs: self.inputs.drop_first() }
        } else {
            self
        }
    }

    /// Everything that waits, in the order in which it will be handled.
    pub open spec fn order(self) -> Seq<Incoming> {
        self.signals.map_values(|s: Signal| Incoming::Signal(s)) + self.inputs.map_values(
            |e: Event| Incoming::Input(e),
        )
    }
}

/// Taking out `next` takes the head of the order off: all signals leave
/// before any event of the terminal, and each source keeps its own order.
pub proof fn lemma_next_is_head_of_order(inbox: InboxView)
    ensures
        inbox.next() is None <==> inbox.order().len() == 0,
        inbox.next() matches Some(first) ==> inbox.order()[0] == first && inbox.rest().order()
            == inbox.order().drop_first(),
{
    if inbox.signals.len() > 0 {
        assert(inbox.rest().order() =~= inbox.order().drop_first());
    } else if inbox.inputs.len() > 0 {
        assert(inbox.rest().order() =~= inbox.order().drop_first());
    }
}

/// The events that have arrived and wait to be handled.
pub struct Inbox {
    signals: VecDeque<Signal>,
    inputs: VecDeque<Event>,
}

impl View for Inbox {
    type V = InboxView;

    closed spec fn view(&self) -> InboxView {
        InboxView { signals: self.signals@, inputs: self.inputs@ }
    }
}

impl Inbox {
    /// An inbox in which nothing waits.
    pub fn new() -> (inbox: Self)
        ensures
            inbox@.signals.len() == 0,
            inbox@.inputs.len() == 0,
    {
        Inbox { signals: VecDeque::new(), inputs: VecDeque::new() }
    }

    /// Whether nothing waits.
    pub fn is_empty(&self) -> (empty: bool)
        ensures
            empty == (self@.next() is None),
    {
        self.signals.len() == 0 && self.inputs.len() == 0
    }

    /// Puts a signal behind the signals that wait.
    pub fn push_signal(&mut self, signal: Signal)
        ensures
            final(self)@.signals == old(self)@.signals.push(signal),
            final(self)@.inputs == old(self)@.inputs,
    {
        self.signals.push_back(signal);
    }

    /// Puts an event of the terminal behind the events that wait.
    pub fn push_input(&mut self, event: Event)
        ensures
            final(self)@.inputs == old(self)@.inputs.push(event),
            final(self)@.signals == old(self)@.signals,
    {
        self.inputs.push_back(event);
    }

    /// Takes out what is handled next: the oldest signal, or, where no signal
    /// waits, the oldest event of the terminal.
    pub fn pop(&mut self) -> (incoming: Option<Incoming>)
        ensures
            incoming == old(self)@.next(),
            final(self)@ == old(self)@.rest(),
    {
        match self.signals.pop_front() {
            Some(signal) => {
                proof {
                    assert(self.signals@ == old(self).signals@.drop_first());
                }
                Some(Incoming::Signal(signal))
            },
            None => {
                match self.inputs.pop_front() {
                    Some(event) => {
                        proof {
                            assert(self.inputs@ == old(self).inputs@.drop_first());
                        }
                        Some(Incoming::Input(event))
                    },
                    None => None,
                }
            },
        }
    }
}

} // verus!
