//! Tables of representative raw records for every normalizer: each row
//! has one deterministic unified event, or none.

use mouce::common::{MouseButton, MouseEvent, ScrollDirection};
use mouce::darwin::normalize_darwin;
use mouce::nix::{
    normalize_evdev, InputEvent, TimeVal, BTN_LEFT, BTN_MIDDLE, BTN_RIGHT, EV_KEY, EV_REL,
    EV_SYN, REL_HWHEEL, REL_WHEEL, REL_X, REL_Y,
};
use mouce::windows::{
    normalize_windows, wheel_delta_value, WM_LBUTTONDOWN, WM_LBUTTONUP, WM_MBUTTONDOWN,
    WM_MBUTTONUP, WM_MOUSEHWHEEL, WM_MOUSEMOVE, WM_MOUSEWHEEL, WM_RBUTTONDOWN, WM_RBUTTONUP,
};

fn record(kind: u16, code: u16, value: i32) -> InputEvent {
    InputEvent {
        time: TimeVal { tv_sec: 0, tv_usec: 0 },
        kind,
        code,
        value,
    }
}

#[test]
fn evdev_button_records() {
    assert_eq!(
        normalize_evdev(&record(EV_KEY, BTN_LEFT, 1)),
        Some(MouseEvent::Press(MouseButton::Left))
    );
    assert_eq!(
        normalize_evdev(&record(EV_KEY, BTN_LEFT, 0)),
        Some(MouseEvent::Release(MouseButton::Left))
    );
    assert_eq!(
        normalize_evdev(&record(EV_KEY, BTN_RIGHT, 1)),
        Some(MouseEvent::Press(MouseButton::Right))
    );
    assert_eq!(
        normalize_evdev(&record(EV_KEY, BTN_MIDDLE, 0)),
        Some(MouseEvent::Release(MouseButton::Middle))
    );
}

#[test]
fn evdev_unknown_button_code_is_dropped() {
    assert_eq!(normalize_evdev(&record(EV_KEY, 0x120, 1)), None);
}

#[test]
fn evdev_wheel_records() {
    assert_eq!(
        normalize_evdev(&record(EV_REL, REL_WHEEL, 3)),
        Some(MouseEvent::Scroll(ScrollDirection::Up, 3))
    );
    assert_eq!(
        normalize_evdev(&record(EV_REL, REL_WHEEL, -2)),
        Some(MouseEvent::Scroll(ScrollDirection::Down, 2))
    );
    assert_eq!(
        normalize_evdev(&record(EV_REL, REL_HWHEEL, 1)),
        Some(MouseEvent::Scroll(ScrollDirection::Right, 1))
    );
    assert_eq!(
        normalize_evdev(&record(EV_REL, REL_HWHEEL, -1)),
        Some(MouseEvent::Scroll(ScrollDirection::Left, 1))
    );
}

#[test]
fn evdev_wheel_magnitude_of_the_minimum_value() {
    assert_eq!(
        normalize_evdev(&record(EV_REL, REL_WHEEL, i32::MIN)),
        Some(MouseEvent::Scroll(ScrollDirection::Down, 2147483648))
    );
}

#[test]
fn evdev_motion_records() {
    assert_eq!(
        normalize_evdev(&record(EV_REL, REL_X, 7)),
        Some(MouseEvent::RelativeMove(7, 0))
    );
    assert_eq!(
        normalize_evdev(&record(EV_REL, REL_Y, -4)),
        Some(MouseEvent::RelativeMove(0, -4))
    );
}

#[test]
fn evdev_other_records_are_dropped() {
    assert_eq!(normalize_evdev(&record(EV_SYN, 0, 0)), None);
    assert_eq!(normalize_evdev(&record(EV_REL, 0x0b, 1)), None);
    assert_eq!(normalize_evdev(&record(0x03, 0, 5)), None);
}

#[test]
fn windows_button_messages() {
    assert_eq!(
        normalize_windows(WM_LBUTTONDOWN, 0, 0, 0),
        Some(MouseEvent::Press(MouseButton::Left))
    );
    assert_eq!(
        normalize_windows(WM_LBUTTONUP, 0, 0, 0),
        Some(MouseEvent::Release(MouseButton::Left))
    );
    assert_eq!(
        normalize_windows(WM_RBUTTONDOWN, 0, 0, 0),
        Some(MouseEvent::Press(MouseButton::Right))
    );
    assert_eq!(
        normalize_windows(WM_RBUTTONUP, 0, 0, 0),
        Some(MouseEvent::Release(MouseButton::Right))
    );
    assert_eq!(
        normalize_windows(WM_MBUTTONDOWN, 0, 0, 0),
        Some(MouseEvent::Press(MouseButton::Middle))
    );
    assert_eq!(
        normalize_windows(WM_MBUTTONUP, 0, 0, 0),
        Some(MouseEvent::Release(MouseButton::Middle))
    );
}

#[test]
fn windows_motion_message() {
    assert_eq!(
        normalize_windows(WM_MOUSEMOVE, 640, 480, 0),
        Some(MouseEvent::AbsoluteMove(640, 480))
    );
}

#[test]
fn windows_wheel_messages() {
    let up_one = (120u32) << 16;
    let down_one = (0xFF88u32) << 16; // -120 in the signed high word
    let right_two = (240u32) << 16;
    let left_one = (0xFF88u32) << 16;
    assert_eq!(wheel_delta_value(up_one), 120);
    assert_eq!(wheel_delta_value(down_one), -120);
    assert_eq!(
        normalize_windows(WM_MOUSEWHEEL, 0, 0, up_one),
        Some(MouseEvent::Scroll(ScrollDirection::Up, 1))
    );
    assert_eq!(
        normalize_windows(WM_MOUSEWHEEL, 0, 0, down_one),
        Some(MouseEvent::Scroll(ScrollDirection::Down, 1))
    );
    assert_eq!(
        normalize_windows(WM_MOUSEHWHEEL, 0, 0, right_two),
        Some(MouseEvent::Scroll(ScrollDirection::Right, 2))
    );
    assert_eq!(
        normalize_windows(WM_MOUSEHWHEEL, 0, 0, left_one),
        Some(MouseEvent::Scroll(ScrollDirection::Left, 1))
    );
}

#[test]
fn windows_zero_delta_wheel_is_dropped() {
    assert_eq!(normalize_windows(WM_MOUSEWHEEL, 0, 0, 0), None);
    assert_eq!(normalize_windows(WM_MOUSEHWHEEL, 0, 0, 0), None);
}

#[test]
fn windows_other_messages_are_dropped() {
    assert_eq!(normalize_windows(0x0100, 0, 0, 0), None);
}

#[test]
fn darwin_button_events() {
    assert_eq!(
        normalize_darwin(1, 0, 0, 0, 0),
        Some(MouseEvent::Press(MouseButton::Left))
    );
    assert_eq!(
        normalize_darwin(2, 0, 0, 0, 0),
        Some(MouseEvent::Release(MouseButton::Left))
    );
    assert_eq!(
        normalize_darwin(3, 0, 0, 0, 0),
        Some(MouseEvent::Press(MouseButton::Right))
    );
    assert_eq!(
        normalize_darwin(4, 0, 0, 0, 0),
        Some(MouseEvent::Release(MouseButton::Right))
    );
    assert_eq!(
        normalize_darwin(25, 0, 0, 0, 0),
        Some(MouseEvent::Press(MouseButton::Middle))
    );
    assert_eq!(
        normalize_darwin(26, 0, 0, 0, 0),
        Some(MouseEvent::Release(MouseButton::Middle))
    );
}

#[test]
fn darwin_motion_event() {
    assert_eq!(
        normalize_darwin(5, 311, 482, 0, 0),
        Some(MouseEvent::AbsoluteMove(311, 482))
    );
}

#[test]
fn darwin_wheel_events() {
    assert_eq!(
        normalize_darwin(22, 0, 0, 3, 0),
        Some(MouseEvent::Scroll(ScrollDirection::Up, 3))
    );
    assert_eq!(
        normalize_darwin(22, 0, 0, -2, 0),
        Some(MouseEvent::Scroll(ScrollDirection::Down, 2))
    );
    assert_eq!(
        normalize_darwin(22, 0, 0, 0, -4),
        Some(MouseEvent::Scroll(ScrollDirection::Right, 4))
    );
    assert_eq!(
        normalize_darwin(22, 0, 0, 0, 5),
        Some(MouseEvent::Scroll(ScrollDirection::Left, 5))
    );
    // a huge delta is clamped into the magnitude range
    assert_eq!(
        normalize_darwin(22, 0, 0, i64::MIN, 0),
        Some(MouseEvent::Scroll(ScrollDirection::Down, u32::MAX))
    );
}

#[test]
fn darwin_idle_wheel_and_unknown_tags_are_dropped() {
    assert_eq!(normalize_darwin(22, 0, 0, 0, 0), None);
    assert_eq!(normalize_darwin(10, 0, 0, 0, 0), None);
    assert_eq!(normalize_darwin(11, 0, 0, 0, 0), None);
}
