use bkw_rich_edit_opts::abi::{EM_GETEVENTMASK, EM_SETEVENTMASK, ENM_SELCHANGE};
use bkw_rich_edit_opts::caret::{CaretPhase, CaretTracking};
use bkw_rich_edit_opts::control::{run_caret_tracking, ScriptedControl};
use bkw_rich_edit_opts::protocol::{Action, CharRange, Message, Param, Reply};

#[test]
fn caret_tracking_from_empty_mask() {
    let mut control = ScriptedControl::new(CharRange::new(0, 0), 0, 0);
    assert!(run_caret_tracking(&mut control));
    assert_ne!(control.event_mask & ENM_SELCHANGE as isize, 0);
    assert_eq!(control.event_mask, 0x80000);
    assert_eq!(
        control.received,
        vec![
            Message { code: EM_GETEVENTMASK, wparam: 0, lparam: Param::Zero },
            Message { code: EM_SETEVENTMASK, wparam: 0, lparam: Param::Value(0x80000) },
        ]
    );
}

#[test]
fn caret_tracking_already_enabled() {
    let mask: isize = 0x80000 | 0x1;
    let mut control = ScriptedControl::new(CharRange::new(0, 0), mask, 0);
    assert!(!run_caret_tracking(&mut control));
    assert_eq!(control.event_mask, mask);
    assert_eq!(
        control.received,
        vec![
            Message { code: EM_GETEVENTMASK, wparam: 0, lparam: Param::Zero },
            Message { code: EM_SETEVENTMASK, wparam: 0, lparam: Param::Value(mask) },
        ]
    );
}

#[test]
fn caret_tracking_keeps_other_bits() {
    let mut control = ScriptedControl::new(CharRange::new(0, 0), 0x1 | 0x4000000, 0);
    assert!(run_caret_tracking(&mut control));
    assert_eq!(control.event_mask, 0x1 | 0x4000000 | 0x80000);
}

#[test]
fn caret_session_steps_by_hand() {
    let mut session = CaretTracking::new();
    assert_eq!(session.action(), Action::Send(Message::get_event_mask()));
    session.on_reply(Reply { result: 0x2, range: CharRange::new(0, 0) });
    assert_eq!(session.action(), Action::Send(Message::set_event_mask(0x80002)));
    session.on_reply(Reply { result: 0x2, range: CharRange::new(0, 0) });
    assert_eq!(session.phase, CaretPhase::Finished);
    assert_eq!(session.action(), Action::Finish(true));
}

#[test]
fn caret_session_reports_no_change() {
    let mut session = CaretTracking::new();
    session.on_reply(Reply { result: 0x80001, range: CharRange::new(0, 0) });
    assert_eq!(session.action(), Action::Send(Message::set_event_mask(0x80001)));
    session.on_reply(Reply { result: 0x80001, range: CharRange::new(0, 0) });
    assert_eq!(session.action(), Action::Finish(false));
}

#[test]
fn caret_session_result_ignores_write_reply() {
    let mut session = CaretTracking::new();
    session.on_reply(Reply { result: 0, range: CharRange::new(0, 0) });
    session.on_reply(Reply { result: 0, range: CharRange::new(0, 0) });
    assert_eq!(session.action(), Action::Finish(true));
}
