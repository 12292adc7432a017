//! Enabling selection-change notifications on a control.
//!
//! Two messages go to the control: the event mask is read, then written back
//! with the selection-change bit added. The session ends with `true` exactly
//! when the mask written differs from the mask read, that is, when the bit
//! was not set before.
use vstd::prelude::*;
use crate::abi::ENM_SELCHANGE;
use crate::protocol::{get_event_mask_message, set_event_mask_message, Action, Message, Reply};

verus! {

/// The event mask with the selection-change bit added.
pub open spec fn with_selection_events(mask: isize) -> isize {
    mask | (ENM_SELCHANGE as isize)
}

/// How far a caret-tracking session has come.
#[derive(Clone, Copy, Debug, PartialEq, Eq, Structural)]
pub enum CaretPhase {
    ReadMask,
    WriteMask,
    Finished,
}

/// A session that turns on selection-change notifications of one control.
#[derive(Clone, Copy, Debug, PartialEq, Eq, Structural)]
pub struct CaretTracking {
    /// The mask read from the control.
    pub original: isize,
    pub phase: CaretPhase,
}

impl CaretTracking {
    /// The session's state before any message was sent.
    pub open spec fn initial() -> CaretTracking {
        CaretTracking { original: 0, phase: CaretPhase::ReadMask }
    }

    /// How many messages are still to be sent.
    pub open spec fn remaining(self) -> nat {
        match self.phase {
            CaretPhase::ReadMask => 2,
            CaretPhase::WriteMask => 1,
            CaretPhase::Finished => 0,
        }
    }

    /// What the session asks for in its present state.
    pub open spec fn next_action(self) -> Action {
        match self.phase {
            CaretPhase::ReadMask => Action::Send(get_event_mask_message()),
            CaretPhase::WriteMask => Action::Send(
                set_event_mask_message(with_selection_events(self.original)),
            ),
            CaretPhase::Finished => Action::Finish(
                with_selection_events(self.original) != self.original,
            ),
        }
    }

    /// The session's state once `reply` came back to the message it asked for.
    pub open spec fn after_reply(self, reply: Reply) -> CaretTracking {
        match self.phase {
            CaretPhase::ReadMask => CaretTracking {
                original: reply.result,
                phase: CaretPhase::WriteMask,
                ..self
            },
            CaretPhase::WriteMask => CaretTracking { phase: CaretPhase::Finished, ..self },
            CaretPhase::Finished => self,
        }
    }

    /// Starts a session.
    pub fn new() -> (r: CaretTracking)
        ensures
            r == CaretTracking::initial(),
    {
        CaretTracking { original: 0, phase: CaretPhase::ReadMask }
    }

    /// The message to send next, or the result once both were sent.
    pub fn action(&self) -> (r: Action)
        ensures
            r == self.next_action(),
    {
        match self.phase {
            CaretPhase::ReadMask => Action::Send(Message::get_event_mask()),
            CaretPhase::WriteMask => {
                let mask = self.original | (ENM_SELCHANGE as isize);
                Action::Send(Message::set_event_mask(mask))
            },
            CaretPhase::Finished => {
                let mask = self.original | (ENM_SELCHANGE as isize);
                Action::Finish(mask != self.original)
            },
        }
    }

    /// Takes the reply to the message that `action` asked for.
    pub fn on_reply(&mut self, reply: Reply)
        ensures
            *final(self) == old(self).after_reply(reply),
    {
        match self.phase {
            CaretPhase::ReadMask => {
                self.original = reply.result;
                self.phase = CaretPhase::WriteMask;
            },
            CaretPhase::WriteMask => {
                self.phase = CaretPhase::Finished;
            },
            CaretPhase::Finished => {},
        }
    }
}

} // verus!
