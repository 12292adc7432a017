//! Rich-edit control helpers: formatting a range as a link, decoding
//! selection-change notifications, and enabling selection-change events.
//!
//! The control itself is driven through synchronous window messages. This
//! crate decides which messages are sent, with which parameters, and what the
//! replies mean; the host performs the sends.
use vstd::prelude::*;

pub mod abi;
pub mod protocol;
pub mod link;
pub mod caret;
pub mod notify;
pub mod control;
