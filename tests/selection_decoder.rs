use bkw_rich_edit_opts::abi::{EN_SELCHANGE, SEL_EMPTY};
use bkw_rich_edit_opts::notify::{carries_selection_change, decode_selection_change, SelectionNotification};
use bkw_rich_edit_opts::protocol::CharRange;

#[test]
fn decoder_returns_caret_of_empty_selection() {
    let n = SelectionNotification::selection_change(CharRange::new(42, 42), SEL_EMPTY);
    assert_eq!(decode_selection_change(&n), 42);
    let n = SelectionNotification { code: EN_SELCHANGE, range: CharRange::new(7, 42), selection_type: 0 };
    assert_eq!(decode_selection_change(&n), 42);
}

#[test]
fn decoder_ignores_other_notifications() {
    let n = SelectionNotification { code: 1793, range: CharRange::new(42, 42), selection_type: SEL_EMPTY };
    assert_eq!(decode_selection_change(&n), -1);
    let n = SelectionNotification { code: 0, range: CharRange::new(5, 99), selection_type: 3 };
    assert_eq!(decode_selection_change(&n), -1);
    assert_eq!(decode_selection_change(&SelectionNotification::header_only(1795)), -1);
}

#[test]
fn decoder_ignores_non_empty_selection() {
    let n = SelectionNotification::selection_change(CharRange::new(10, 42), 1);
    assert_eq!(decode_selection_change(&n), -1);
    let n = SelectionNotification::selection_change(CharRange::new(10, 42), 0x8);
    assert_eq!(decode_selection_change(&n), -1);
}

#[test]
fn selection_change_code_is_recognised() {
    assert!(carries_selection_change(0x0702));
    assert!(!carries_selection_change(0x0701));
    assert!(!carries_selection_change(0));
}
