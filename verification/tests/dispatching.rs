//! Fan-out scenarios: one normalized event reaches every registered
//! callback exactly once, with no duplication after an unhook.

use mouce::common::{MouseButton, MouseEvent, RecordingCallback};
use mouce::darwin::DarwinMouseManager;
use mouce::nix::{InputEvent, TimeVal, BTN_LEFT, EV_KEY, EV_REL, REL_WHEEL};
use mouce::supervisor::CountingRawSource;
use mouce::windows::{WindowsMouseManager, WM_MOUSEMOVE};
use mouce::x11::X11MouseManager;
use mouce::Mouse;

fn press_left_record() -> InputEvent {
    InputEvent {
        time: TimeVal { tv_sec: 0, tv_usec: 0 },
        kind: EV_KEY,
        code: BTN_LEFT,
        value: 1,
    }
}

#[test]
fn fan_out_reaches_both_callbacks_once() {
    let mut manager = Mouse::new(CountingRawSource::new(false));
    let id1 = manager.hook(RecordingCallback::new()).unwrap();
    manager.hook(RecordingCallback::new()).unwrap();

    manager.handle_raw_event(&press_left_record());

    assert_eq!(manager.callback_count(), 2);
    for i in 0..2 {
        let entry = manager.entry_at(i);
        assert_eq!(
            entry.callback.received,
            vec![MouseEvent::Press(MouseButton::Left)]
        );
    }

    // after one unhook the event reaches only the remaining callback
    manager.unhook(id1).unwrap();
    manager.handle_raw_event(&press_left_record());
    assert_eq!(manager.callback_count(), 1);
    let remaining = manager.entry_at(0);
    assert_eq!(remaining.callback.received.len(), 2);
}

#[test]
fn dropped_records_reach_nobody() {
    let mut manager = Mouse::new(CountingRawSource::new(false));
    manager.hook(RecordingCallback::new()).unwrap();
    let unknown = InputEvent {
        time: TimeVal { tv_sec: 0, tv_usec: 0 },
        kind: EV_KEY,
        code: 0x120,
        value: 1,
    };
    manager.handle_raw_event(&unknown);
    assert_eq!(manager.entry_at(0).callback.received.len(), 0);
}

#[test]
fn events_are_dispatched_in_arrival_order() {
    let mut manager = Mouse::new(CountingRawSource::new(false));
    manager.hook(RecordingCallback::new()).unwrap();
    manager.handle_raw_event(&press_left_record());
    let scroll = InputEvent {
        time: TimeVal { tv_sec: 0, tv_usec: 0 },
        kind: EV_REL,
        code: REL_WHEEL,
        value: 2,
    };
    manager.handle_raw_event(&scroll);
    let entry = manager.entry_at(0);
    assert_eq!(
        entry.callback.received,
        vec![
            MouseEvent::Press(MouseButton::Left),
            MouseEvent::Scroll(mouce::common::ScrollDirection::Up, 2),
        ]
    );
}

#[test]
fn windows_manager_fans_out_normalized_events() {
    let mut manager = WindowsMouseManager::new(CountingRawSource::new(false));
    manager.hook(RecordingCallback::new()).unwrap();
    manager.handle_raw_event(WM_MOUSEMOVE, 12, 34, 0);
    let entry = manager.entry_at(0);
    assert_eq!(entry.callback.received, vec![MouseEvent::AbsoluteMove(12, 34)]);
}

#[test]
fn x11_manager_shares_the_kernel_device_normalizer() {
    let mut manager = X11MouseManager::new(CountingRawSource::new(false));
    manager.hook(RecordingCallback::new()).unwrap();
    manager.handle_raw_event(&press_left_record());
    let entry = manager.entry_at(0);
    assert_eq!(
        entry.callback.received,
        vec![MouseEvent::Press(MouseButton::Left)]
    );
}

#[test]
fn darwin_manager_fans_out_normalized_events() {
    let mut manager = DarwinMouseManager::new(CountingRawSource::new(false));
    manager.hook(RecordingCallback::new()).unwrap();
    manager.handle_raw_event(22, 0, 0, -1, 0);
    let entry = manager.entry_at(0);
    assert_eq!(
        entry.callback.received,
        vec![MouseEvent::Scroll(mouce::common::ScrollDirection::Down, 1)]
    );
}
