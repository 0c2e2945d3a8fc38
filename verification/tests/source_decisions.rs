use idle_termquest::event::{Event, KeyCode, KeyInfo, MouseInfo};
use idle_termquest::source::{forward_input, remaining_timeout, KeyKind, RawInput};

#[test]
fn timeout_is_the_remaining_tick_budget() {
    assert_eq!(remaining_timeout(100, 30), 70);
    assert_eq!(remaining_timeout(100, 100), 0);
}

#[test]
fn timeout_is_floored_at_zero() {
    assert_eq!(remaining_timeout(100, 150), 0);
}

#[test]
fn key_presses_are_forwarded() {
    let info = KeyInfo { code: KeyCode::Char('x'), ctrl: false };
    assert_eq!(
        forward_input(&RawInput::Key(info, KeyKind::Press)),
        Some(Event::Key(info))
    );
}

#[test]
fn key_repeats_and_releases_are_filtered() {
    let info = KeyInfo { code: KeyCode::Char('x'), ctrl: false };
    assert_eq!(forward_input(&RawInput::Key(info, KeyKind::Repeat)), None);
    assert_eq!(forward_input(&RawInput::Key(info, KeyKind::Release)), None);
}

#[test]
fn mouse_and_resize_are_forwarded() {
    let m = MouseInfo { column: 3, row: 7 };
    assert_eq!(forward_input(&RawInput::Mouse(m)), Some(Event::Mouse(m)));
    assert_eq!(
        forward_input(&RawInput::Resize(80, 24)),
        Some(Event::Resize(80, 24))
    );
    assert_eq!(forward_input(&RawInput::Other), None);
}
