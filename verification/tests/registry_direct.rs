//! The callback registry and the listener supervisor exercised directly,
//! below the per-platform managers.

use mouce::common::{MouseButton, MouseEvent, RecordingCallback};
use mouce::error::Error;
use mouce::registry::CallbackRegistry;
use mouce::supervisor::{CountingRawSource, ListenerSupervisor, RawEventSource};

#[test]
fn registry_assigns_sequential_ids() {
    let mut reg: CallbackRegistry<RecordingCallback> = CallbackRegistry::new();
    assert_eq!(reg.counter_value(), 0);
    assert_eq!(reg.register(RecordingCallback::new()), Ok(0));
    assert_eq!(reg.register(RecordingCallback::new()), Ok(1));
    assert_eq!(reg.len(), 2);
    assert_eq!(reg.counter_value(), 2);
    assert_eq!(reg.entry_at(0).id, 0);
    assert_eq!(reg.entry_at(1).id, 1);
}

#[test]
fn registry_remove_keeps_the_other_entries() {
    let mut reg: CallbackRegistry<RecordingCallback> = CallbackRegistry::new();
    reg.register(RecordingCallback::new()).unwrap();
    reg.register(RecordingCallback::new()).unwrap();
    reg.register(RecordingCallback::new()).unwrap();
    assert_eq!(reg.remove(1), Ok(()));
    assert_eq!(reg.len(), 2);
    assert_eq!(reg.entry_at(0).id, 0);
    assert_eq!(reg.entry_at(1).id, 2);
    assert_eq!(reg.remove(1), Err(Error::UnhookFailed));
}

#[test]
fn registry_clear_keeps_the_counter() {
    let mut reg: CallbackRegistry<RecordingCallback> = CallbackRegistry::new();
    reg.register(RecordingCallback::new()).unwrap();
    reg.register(RecordingCallback::new()).unwrap();
    reg.clear();
    assert_eq!(reg.len(), 0);
    assert_eq!(reg.counter_value(), 2);
    assert_eq!(reg.register(RecordingCallback::new()), Ok(2));
}

#[test]
fn registry_dispatch_invokes_every_callback() {
    let mut reg: CallbackRegistry<RecordingCallback> = CallbackRegistry::new();
    reg.register(RecordingCallback::new()).unwrap();
    reg.register(RecordingCallback::new()).unwrap();
    let event = MouseEvent::Release(MouseButton::Middle);
    reg.dispatch(&event);
    for i in 0..2 {
        assert_eq!(reg.entry_at(i).callback.received, vec![event]);
    }
}

#[test]
fn supervisor_reports_listening_state() {
    let mut sup: ListenerSupervisor<CountingRawSource, RecordingCallback> =
        ListenerSupervisor::new(CountingRawSource::new(false));
    assert!(!sup.is_listening());
    sup.hook(RecordingCallback::new()).unwrap();
    assert!(sup.is_listening());
    // removing every callback stops delivery, never the listener
    sup.unhook_all().unwrap();
    assert!(sup.is_listening());
}

#[test]
fn counting_source_counts_denied_starts_too() {
    let mut source = CountingRawSource::new(true);
    assert_eq!(source.start(), Err(Error::PermissionDenied));
    assert_eq!(source.start(), Err(Error::PermissionDenied));
    assert_eq!(source.starts, 2);
    let mut open_source = CountingRawSource::new(false);
    assert_eq!(open_source.start(), Ok(()));
    assert_eq!(open_source.starts, 1);
}
