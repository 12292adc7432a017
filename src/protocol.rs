//! The messages exchanged with a control, and the replies it gives.
use vstd::prelude::*;
use crate::abi::{
    CFE_LINK, CFM_LINK, EM_EXGETSEL, EM_EXSETSEL, EM_GETEVENTMASK, EM_SETCHARFORMAT,
    EM_SETEVENTMASK, SCF_SELECTION,
};

verus! {

/// A character offset in a control's text, as the toolkit counts it.
pub type Position = libc::c_int;

/// A span of text between two character offsets.
#[derive(Clone, Copy, Debug, PartialEq, Eq, Structural)]
pub struct CharRange {
    pub cp_min: Position,
    pub cp_max: Position,
}

impl CharRange {
    pub fn new(cp_min: Position, cp_max: Position) -> (r: CharRange)
        ensures
            r.cp_min == cp_min,
            r.cp_max == cp_max,
    {
        CharRange { cp_min, cp_max }
    }
}

/// The fields of a character-format record that are set; every other field
/// of the record is zero.
#[derive(Clone, Copy, Debug, PartialEq, Eq, Structural)]
pub struct CharFormat {
    pub mask: u32,
    pub effects: u32,
}

/// The second parameter of a message.
#[derive(Clone, Copy, Debug, PartialEq, Eq, Structural)]
pub enum Param {
    /// The parameter is zero.
    Zero,
    /// The address of a character range that the control fills in.
    RangeOut,
    /// The address of a character range that the control reads.
    Range(CharRange),
    /// The address of a character-format record that the control reads.
    Format(CharFormat),
    /// A plain integer.
    Value(isize),
}

/// One message to a control: its code and its two parameters.
#[derive(Clone, Copy, Debug, PartialEq, Eq, Structural)]
pub struct Message {
    pub code: u32,
    pub wparam: usize,
    pub lparam: Param,
}

/// What the control answered to a message: the message's result, and the
/// range it filled in where the parameter was `Param::RangeOut` (zero
/// otherwise).
#[derive(Clone, Copy, Debug, PartialEq, Eq, Structural)]
pub struct Reply {
    pub result: isize,
    pub range: CharRange,
}

/// What a session asks its host to do next.
#[derive(Clone, Copy, Debug, PartialEq, Eq, Structural)]
pub enum Action {
    /// Send this message and hand the reply back to the session.
    Send(Message),
    /// The session is over, with this result.
    Finish(bool),
}

pub open spec fn query_selection_message() -> Message {
    Message { code: EM_EXGETSEL, wparam: 0, lparam: Param::RangeOut }
}

pub open spec fn set_selection_message(r: CharRange) -> Message {
    Message { code: EM_EXSETSEL, wparam: 0, lparam: Param::Range(r) }
}

pub open spec fn link_format() -> CharFormat {
    CharFormat { mask: CFM_LINK, effects: CFE_LINK }
}

pub open spec fn apply_link_message() -> Message {
    Message {
        code: EM_SETCHARFORMAT,
        wparam: SCF_SELECTION as usize,
        lparam: Param::Format(link_format()),
    }
}

pub open spec fn get_event_mask_message() -> Message {
    Message { code: EM_GETEVENTMASK, wparam: 0, lparam: Param::Zero }
}

pub open spec fn set_event_mask_message(mask: isize) -> Message {
    Message { code: EM_SETEVENTMASK, wparam: 0, lparam: Param::Value(mask) }
}

impl Message {
    /// Asks for the current selection.
    pub fn query_selection() -> (r: Message)
        ensures
            r == query_selection_message(),
    {
        Message { code: EM_EXGETSEL, wparam: 0, lparam: Param::RangeOut }
    }

    /// Selects `range`.
    pub fn set_selection(range: CharRange) -> (r: Message)
        ensures
            r == set_selection_message(range),
    {
        Message { code: EM_EXSETSEL, wparam: 0, lparam: Param::Range(range) }
    }

    /// Formats the current selection as a link, touching no other attribute.
    pub fn apply_link() -> (r: Message)
        ensures
            r == apply_link_message(),
    {
        let format = CharFormat { mask: CFM_LINK, effects: CFE_LINK };
        Message { code: EM_SETCHARFORMAT, wparam: SCF_SELECTION as usize, lparam: Param::Format(format) }
    }

    /// Asks for the event mask.
    pub fn get_event_mask() -> (r: Message)
        ensures
            r == get_event_mask_message(),
    {
        Message { code: EM_GETEVENTMASK, wparam: 0, lparam: Param::Zero }
    }

    /// Replaces the event mask by `mask`.
    pub fn set_event_mask(mask: isize) -> (r: Message)
        ensures
            r == set_event_mask_message(mask),
    {
        Message { code: EM_SETEVENTMASK, wparam: 0, lparam: Param::Value(mask) }
    }
}

} // verus!
