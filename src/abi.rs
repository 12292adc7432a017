//! Message codes and flag values of the rich-edit messaging interface.
use vstd::prelude::*;

verus! {

/// Reads the current selection into a character range.
pub const EM_EXGETSEL: u32 = 1076;

/// Selects the character range handed with the message.
pub const EM_EXSETSEL: u32 = 1079;

/// Reads the mask of notifications that the control sends.
pub const EM_GETEVENTMASK: u32 = 1083;

/// Applies a character format.
pub const EM_SETCHARFORMAT: u32 = 1092;

/// Replaces the mask of notifications that the control sends.
pub const EM_SETEVENTMASK: u32 = 1093;

/// Scope of a character format: the current selection.
pub const SCF_SELECTION: u32 = 1;

/// Format mask bit that makes the link effect meaningful.
pub const CFM_LINK: u32 = 0x20;

/// Effect bit that renders text as a link.
pub const CFE_LINK: u32 = 0x20;

/// Event-mask bit that enables selection-change notifications.
pub const ENM_SELCHANGE: u32 = 0x80000;

/// Notification code of a selection change.
pub const EN_SELCHANGE: u32 = 1794;

/// Selection type of an empty selection: a caret and no range.
pub const SEL_EMPTY: u16 = 0;

} // verus!
