//! Reading the caret position out of a control's notification.
use vstd::prelude::*;
use crate::abi::{EN_SELCHANGE, SEL_EMPTY};
use crate::protocol::{CharRange, Position};

verus! {

/// A notification seen through the layout of a selection change: the code
/// of its header, and the two fields that a selection change carries after
/// it. The two fields mean something only where the code is `EN_SELCHANGE`.
#[derive(Clone, Copy, Debug, PartialEq, Eq, Structural)]
pub struct SelectionNotification {
    pub code: u32,
    pub range: CharRange,
    pub selection_type: u16,
}

/// The caret position that a notification reports, or -1 where it reports
/// none: it is not a selection change, or the new selection is not empty.
pub open spec fn caret_position(n: SelectionNotification) -> int {
    if n.code == EN_SELCHANGE && n.selection_type == SEL_EMPTY {
        n.range.cp_max as int
    } else {
        -1
    }
}

/// Whether a notification with header code `code` is a selection change, so
/// that its memory holds the fields of one.
pub fn carries_selection_change(code: u32) -> (r: bool)
    ensures
        r == (code == EN_SELCHANGE),
{
    code == EN_SELCHANGE
}

impl SelectionNotification {
    /// A notification that is a selection change to `range`, of type
    /// `selection_type`.
    pub fn selection_change(range: CharRange, selection_type: u16) -> (r: SelectionNotification)
        ensures
            r.code == EN_SELCHANGE,
            r.range == range,
            r.selection_type == selection_type,
    {
        SelectionNotification { code: EN_SELCHANGE, range, selection_type }
    }

    /// A notification of which only the header code `code` is known.
    pub fn header_only(code: u32) -> (r: SelectionNotification)
        ensures
            r.code == code,
            r.range == (CharRange { cp_min: 0, cp_max: 0 }),
            r.selection_type == SEL_EMPTY,
    {
        SelectionNotification { code, range: CharRange::new(0, 0), selection_type: SEL_EMPTY }
    }
}

/// The new caret position that a notification reports: the end of the new
/// selection where the notification is a selection change to an empty
/// selection, and -1 otherwise, whatever the other fields hold.
pub fn decode_selection_change(n: &SelectionNotification) -> (r: Position)
    ensures
        r as int == caret_position(*n),
{
    if n.code == EN_SELCHANGE {
        if n.selection_type == SEL_EMPTY {
            n.range.cp_max
        } else {
            -1
        }
    } else {
        -1
    }
}

} // verus!
