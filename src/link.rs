//! Formatting a character range as a link.
//!
//! Four messages go to the control, in this order: the current selection is
//! read and kept, the target range is selected, the link format is applied to
//! the selection, and the kept selection is selected again. The last step is
//! taken whatever the format step answered. The session ends with `true`
//! exactly when the format step answered a non-zero result.
use vstd::prelude::*;
use crate::protocol::{
    apply_link_message, query_selection_message, set_selection_message, Action, CharRange,
    Message, Position, Reply,
};

verus! {

/// How far a link-formatting session has come.
#[derive(Clone, Copy, Debug, PartialEq, Eq, Structural)]
pub enum LinkPhase {
    QuerySelection,
    SelectTarget,
    ApplyFormat,
    RestoreSelection,
    Finished,
}

/// A link-formatting session on one control.
#[derive(Clone, Copy, Debug, PartialEq, Eq, Structural)]
pub struct LinkFormatter {
    /// The range to format.
    pub target: CharRange,
    /// The selection read at the start, restored at the end.
    pub saved: CharRange,
    /// The result that the format step answered.
    pub applied: isize,
    pub phase: LinkPhase,
}

impl LinkFormatter {
    /// The session's state before any message was sent.
    pub open spec fn initial(start: Position, end: Position) -> LinkFormatter {
        LinkFormatter {
            target: CharRange { cp_min: start, cp_max: end },
            saved: CharRange { cp_min: 0, cp_max: 0 },
            applied: 0,
            phase: LinkPhase::QuerySelection,
        }
    }

    /// How many messages are still to be sent.
    pub open spec fn remaining(self) -> nat {
        match self.phase {
            LinkPhase::QuerySelection => 4,
            LinkPhase::SelectTarget => 3,
            LinkPhase::ApplyFormat => 2,
            LinkPhase::RestoreSelection => 1,
            LinkPhase::Finished => 0,
        }
    }

    /// What the session asks for in its present state.
    pub open spec fn next_action(self) -> Action {
        match self.phase {
            LinkPhase::QuerySelection => Action::Send(query_selection_message()),
            LinkPhase::SelectTarget => Action::Send(set_selection_message(self.target)),
            LinkPhase::ApplyFormat => Action::Send(apply_link_message()),
            LinkPhase::RestoreSelection => Action::Send(set_selection_message(self.saved)),
            LinkPhase::Finished => Action::Finish(self.applied != 0),
        }
    }

    /// The session's state once `reply` came back to the message it asked for.
    pub open spec fn after_reply(self, reply: Reply) -> LinkFormatter {
        match self.phase {
            LinkPhase::QuerySelection => LinkFormatter {
                saved: reply.range,
                phase: LinkPhase::SelectTarget,
                ..self
            },
            LinkPhase::SelectTarget => LinkFormatter { phase: LinkPhase::ApplyFormat, ..self },
            LinkPhase::ApplyFormat => LinkFormatter {
                applied: reply.result,
                phase: LinkPhase::RestoreSelection,
                ..self
            },
            LinkPhase::RestoreSelection => LinkFormatter { phase: LinkPhase::Finished, ..self },
            LinkPhase::Finished => self,
        }
    }

    /// Starts a session that formats the range from `start` to `end`.
    pub fn new(start: Position, end: Position) -> (r: LinkFormatter)
        ensures
            r == LinkFormatter::initial(start, end),
    {
        LinkFormatter {
            target: CharRange::new(start, end),
            saved: CharRange::new(0, 0),
            applied: 0,
            phase: LinkPhase::QuerySelection,
        }
    }

    /// The message to send next, or the result once all four were sent.
    pub fn action(&self) -> (r: Action)
        ensures
            r == self.next_action(),
    {
        match self.phase {
            LinkPhase::QuerySelection => Action::Send(Message::query_selection()),
            LinkPhase::SelectTarget => Action::Send(Message::set_selection(self.target)),
            LinkPhase::ApplyFormat => Action::Send(Message::apply_link()),
            LinkPhase::RestoreSelection => Action::Send(Message::set_selection(self.saved)),
            LinkPhase::Finished => Action::Finish(self.applied != 0),
        }
    }

    /// Takes the reply to the message that `action` asked for.
    pub fn on_reply(&mut self, reply: Reply)
        ensures
            *final(self) == old(self).after_reply(reply),
    {
        match self.phase {
            LinkPhase::QuerySelection => {
                self.saved = reply.range;
                self.phase = LinkPhase::SelectTarget;
            },
            LinkPhase::SelectTarget => {
                self.phase = LinkPhase::ApplyFormat;
            },
            LinkPhase::ApplyFormat => {
                self.applied = reply.result;
                self.phase = LinkPhase::RestoreSelection;
            },
            LinkPhase::RestoreSelection => {
                self.phase = LinkPhase::Finished;
            },
            LinkPhase::Finished => {},
        }
    }
}

} // verus!
