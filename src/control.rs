//! A control that follows the message protocol and keeps every message it
//! receives, and the sessions run against it.
//!
//! It holds a selection and an event mask, answers the format step with a
//! result fixed in advance, and answers a write of the event mask with the
//! mask it replaced.
use vstd::prelude::*;
use crate::abi::{EM_EXGETSEL, EM_EXSETSEL, EM_GETEVENTMASK, EM_SETCHARFORMAT, EM_SETEVENTMASK};
use crate::caret::{with_selection_events, CaretTracking};
use crate::link::LinkFormatter;
use crate::abi::ENM_SELCHANGE;
use crate::protocol::{
    apply_link_message, get_event_mask_message, query_selection_message, set_event_mask_message,
    set_selection_message, Action, CharRange, Message, Param, Position, Reply,
};

verus! {

/// The state of a scripted control.
pub struct ControlState {
    pub selection: CharRange,
    pub event_mask: isize,
    pub format_result: isize,
    pub received: Seq<Message>,
}

pub open spec fn no_range() -> CharRange {
    CharRange { cp_min: 0, cp_max: 0 }
}

/// The control's answer to `m`.
pub open spec fn respond(c: ControlState, m: Message) -> Reply {
    if m.code == EM_EXGETSEL {
        Reply { result: 0, range: c.selection }
    } else if m.code == EM_SETCHARFORMAT {
        Reply { result: c.format_result, range: no_range() }
    } else if m.code == EM_GETEVENTMASK || m.code == EM_SETEVENTMASK {
        Reply { result: c.event_mask, range: no_range() }
    } else {
        Reply { result: 0, range: no_range() }
    }
}

/// The control's state once it has received `m`.
pub open spec fn receive_message(c: ControlState, m: Message) -> ControlState {
    let kept = ControlState { received: c.received.push(m), ..c };
    match m.lparam {
        Param::Range(r) => if m.code == EM_EXSETSEL {
            ControlState { selection: r, ..kept }
        } else {
            kept
        },
        Param::Value(v) => if m.code == EM_SETEVENTMASK {
            ControlState { event_mask: v, ..kept }
        } else {
            kept
        },
        _ => kept,
    }
}

/// A control that answers messages as `respond` says and records them.
pub struct ScriptedControl {
    pub selection: CharRange,
    pub event_mask: isize,
    pub format_result: isize,
    pub received: Vec<Message>,
}

impl View for ScriptedControl {
    type V = ControlState;

    open spec fn view(&self) -> ControlState {
        ControlState {
            selection: self.selection,
            event_mask: self.event_mask,
            format_result: self.format_result,
            received: self.received@,
        }
    }
}

impl ScriptedControl {
    /// A control with this selection and event mask, which answers the format
    /// step with `format_result`, and has received nothing yet.
    pub fn new(selection: CharRange, event_mask: isize, format_result: isize) -> (r: ScriptedControl)
        ensures
            r@ == (ControlState { selection, event_mask, format_result, received: Seq::empty() }),
    {
        ScriptedControl { selection, event_mask, format_result, received: Vec::new() }
    }

    /// Receives `m`: records it, answers it and applies it.
    pub fn receive(&mut self, m: Message) -> (r: Reply)
        ensures
            r == respond(old(self)@, m),
            final(self)@ == receive_message(old(self)@, m),
    {
        let reply = if m.code == EM_EXGETSEL {
            Reply { result: 0, range: self.selection }
        } else if m.code == EM_SETCHARFORMAT {
            Reply { result: self.format_result, range: CharRange::new(0, 0) }
        } else if m.code == EM_GETEVENTMASK || m.code == EM_SETEVENTMASK {
            Reply { result: self.event_mask, range: CharRange::new(0, 0) }
        } else {
            Reply { result: 0, range: CharRange::new(0, 0) }
        };
        match m.lparam {
            Param::Range(r) => {
                if m.code == EM_EXSETSEL {
                    self.selection = r;
                }
            },
            Param::Value(v) => {
                if m.code == EM_SETEVENTMASK {
                    self.event_mask = v;
                }
            },
            _ => {},
        }
        self.received.push(m);
        reply
    }
}

/// The control's state and the result once the link session `s` has run to
/// its end against a control in state `c`.
pub open spec fn run_link(s: LinkFormatter, c: ControlState) -> (ControlState, bool)
    decreases s.remaining(),
{
    match s.next_action() {
        Action::Send(m) => if s.remaining() > 0 {
            run_link(s.after_reply(respond(c, m)), receive_message(c, m))
        } else {
            (c, false)
        },
        Action::Finish(ok) => (c, ok),
    }
}

/// The control's state and the result once the caret-tracking session `s`
/// has run to its end against a control in state `c`.
pub open spec fn run_caret(s: CaretTracking, c: ControlState) -> (ControlState, bool)
    decreases s.remaining(),
{
    match s.next_action() {
        Action::Send(m) => if s.remaining() > 0 {
            run_caret(s.after_reply(respond(c, m)), receive_message(c, m))
        } else {
            (c, false)
        },
        Action::Finish(ok) => (c, ok),
    }
}

/// Formats the range from `start` to `end` of `control` as a link.
pub fn run_link_formatter(control: &mut ScriptedControl, start: Position, end: Position) -> (r: bool)
    ensures
        (final(control)@, r) == run_link(LinkFormatter::initial(start, end), old(control)@),
{
    let ghost outcome = run_link(LinkFormatter::initial(start, end), old(control)@);
    let mut session = LinkFormatter::new(start, end);
    let mut result = false;
    loop
        invariant
            run_link(session, control@) == outcome,
        ensures
            outcome == (control@, result),
        decreases session.remaining(),
    {
        match session.action() {
            Action::Send(m) => {
                let reply = control.receive(m);
                session.on_reply(reply);
            },
            Action::Finish(ok) => {
                result = ok;
                break;
            },
        }
    }
    result
}

/// Turns on the selection-change notifications of `control`.
pub fn run_caret_tracking(control: &mut ScriptedControl) -> (r: bool)
    ensures
        (final(control)@, r) == run_caret(CaretTracking::initial(), old(control)@),
{
    let ghost outcome = run_caret(CaretTracking::initial(), old(control)@);
    let mut session = CaretTracking::new();
    let mut result = false;
    loop
        invariant
            run_caret(session, control@) == outcome,
        ensures
            outcome == (control@, result),
        decreases session.remaining(),
    {
        match session.action() {
            Action::Send(m) => {
                let reply = control.receive(m);
                session.on_reply(reply);
            },
            Action::Finish(ok) => {
                result = ok;
                break;
            },
        }
    }
    result
}

/// The four messages of a link session that formats `target` on a control
/// whose selection was `saved`.
pub open spec fn link_exchange(target: CharRange, saved: CharRange) -> Seq<Message> {
    seq![
        query_selection_message(),
        set_selection_message(target),
        apply_link_message(),
        set_selection_message(saved),
    ]
}

/// The two messages of a caret-tracking session on a control whose event
/// mask was `mask`: a read of the mask, then a write with the
/// selection-change bit added.
pub open spec fn caret_exchange(mask: isize) -> Seq<Message> {
    seq![
        get_event_mask_message(),
        set_event_mask_message(with_selection_events(mask)),
    ]
}

/// A link session sends, in order, a selection query, a selection of the
/// target range, the link format, and a selection of the range the query
/// returned. It ends with `true` exactly when the format step answered a
/// non-zero result, and leaves the control's selection as it found it.
pub proof fn lemma_link_session(start: Position, end: Position, c: ControlState)
    ensures
        run_link(LinkFormatter::initial(start, end), c).0 == (ControlState {
            received: c.received + link_exchange(CharRange { cp_min: start, cp_max: end }, c.selection),
            ..c
        }),
        run_link(LinkFormatter::initial(start, end), c).1 == (c.format_result != 0),
{
    reveal_with_fuel(run_link, 5);
    let target = CharRange { cp_min: start, cp_max: end };
    let out = run_link(LinkFormatter::initial(start, end), c).0;
    assert(out.received =~= c.received + link_exchange(target, c.selection));
}

/// Two link sessions on the same range send the same four messages each, and
/// the control's selection after both is the one it had before either.
pub proof fn lemma_link_session_twice(start: Position, end: Position, c: ControlState)
    ensures
        ({
            let first = run_link(LinkFormatter::initial(start, end), c);
            let second = run_link(LinkFormatter::initial(start, end), first.0);
            let exchange = link_exchange(CharRange { cp_min: start, cp_max: end }, c.selection);
            &&& second.0.selection == c.selection
            &&& first.0.received == c.received + exchange
            &&& second.0.received == c.received + exchange + exchange
            &&& first.1 == second.1
        }),
{
    lemma_link_session(start, end, c);
    let first = run_link(LinkFormatter::initial(start, end), c);
    lemma_link_session(start, end, first.0);
}

/// A link session on an empty range, where start and end are one offset,
/// sends the same four messages as any other, with that empty range selected
/// in the second.
pub proof fn lemma_link_session_empty_range(pos: Position, c: ControlState)
    ensures
        run_link(LinkFormatter::initial(pos, pos), c).0.received
            == c.received + link_exchange(CharRange { cp_min: pos, cp_max: pos }, c.selection),
        link_exchange(CharRange { cp_min: pos, cp_max: pos }, c.selection)[1].lparam
            == Param::Range(CharRange { cp_min: pos, cp_max: pos }),
        run_link(LinkFormatter::initial(pos, pos), c).1 == (c.format_result != 0),
{
    lemma_link_session(pos, pos, c);
}

/// A caret-tracking session adds the selection-change bit to the control's
/// event mask and keeps every other bit. It ends with `true` exactly when the
/// bit was not set before; where it was, the mask is left as it was.
pub proof fn lemma_caret_session(c: ControlState)
    ensures
        run_caret(CaretTracking::initial(), c).0 == (ControlState {
            event_mask: with_selection_events(c.event_mask),
            received: c.received + caret_exchange(c.event_mask),
            ..c
        }),
        run_caret(CaretTracking::initial(), c).0.event_mask & (ENM_SELCHANGE as isize) != 0,
        run_caret(CaretTracking::initial(), c).1 == (c.event_mask & (ENM_SELCHANGE as isize) == 0),
        c.event_mask & (ENM_SELCHANGE as isize) != 0 ==> run_caret(CaretTracking::initial(), c).0.event_mask == c.event_mask,
{
    reveal_with_fuel(run_caret, 3);
    let out = run_caret(CaretTracking::initial(), c).0;
    assert(out.received =~= c.received + caret_exchange(c.event_mask));
    let m = c.event_mask;
    assert((m | 0x80000isize) & 0x80000isize != 0) by (bit_vector);
    assert(((m | 0x80000isize) != m) == (m & 0x80000isize == 0)) by (bit_vector);
}

} // verus!
