//! A mouse-event hook library: a callback registry, a lazily started
//! listener supervisor, and per-platform normalizers that translate raw
//! input records into one unified event vocabulary.

pub mod common;
pub mod darwin;
pub mod error;
pub mod laws;
pub mod nix;
pub mod registry;
pub mod supervisor;
pub mod windows;
pub mod x11;

use vstd::prelude::*;

use crate::common::{CallbackId, EventCallback};
use crate::error::Error;
use crate::nix::{InputEvent, UInputMouseManager};
use crate::supervisor::{ListenerSupervisor, RawEventSource};

verus! {

/// The user-facing mouse handle: the platform manager this build targets
/// — the kernel-character-device family — behind one fixed name.
///
/// `S` is the raw-event source that opens the platform's input channel;
/// `F` is the callback type the registry holds.
pub struct Mouse<S, F> {
    inner: UInputMouseManager<S, F>,
}

impl<S: RawEventSource, F: EventCallback> Mouse<S, F> {
    /// The inner manager's supervisor as the contracts see it.
    pub closed spec fn supervisor(&self) -> ListenerSupervisor<S, F> {
        self.inner.supervisor()
    }

    /// Well-formedness, inherited from the supervisor.
    pub open spec fn wf(&self) -> bool {
        self.supervisor().wf()
    }

    /// A mouse handle that has not started listening and holds no
    /// callbacks.
    pub fn new(source: S) -> (r: Self)
        ensures
            r.wf(),
            r.supervisor().source() == source,
            r.supervisor().entries() == Seq::<crate::registry::Entry<F>>::empty(),
            r.supervisor().counter() == 0,
            !r.supervisor().listening(),
    {
        Mouse { inner: UInputMouseManager::new(source) }
    }

    /// Attaches `callback` to mouse events, starting the listener first
    /// if it is not running; returns the fresh callback id.
    pub fn hook(&mut self, callback: F) -> (r: Result<CallbackId, Error>)
        requires
            old(self).wf(),
        ensures
            final(self).wf(),
            ListenerSupervisor::hook_post(
                old(self).supervisor(),
                final(self).supervisor(),
                callback,
                r,
            ),
    {
        self.inner.hook(callback)
    }

    /// Removes the callback registered under `id`.
    pub fn unhook(&mut self, id: CallbackId) -> (r: Result<(), Error>)
        requires
            old(self).wf(),
        ensures
            final(self).wf(),
            ListenerSupervisor::unhook_post(
                old(self).supervisor(),
                final(self).supervisor(),
                id,
                r,
            ),
    {
        self.inner.unhook(id)
    }

    /// Removes every callback.
    pub fn unhook_all(&mut self) -> (r: Result<(), Error>)
        requires
            old(self).wf(),
        ensures
            final(self).wf(),
            ListenerSupervisor::unhook_all_post(old(self).supervisor(), final(self).supervisor(), r),
    {
        self.inner.unhook_all()
    }

    /// Takes one raw record, normalizes it, and fans the resulting event
    /// — if there is one — out to every registered callback.
    pub fn handle_raw_event(&mut self, record: &InputEvent)
        requires
            old(self).wf(),
        ensures
            final(self).wf(),
            match crate::nix::evdev_event(record.kind, record.code, record.value) {
                Some(e) => ListenerSupervisor::dispatch_post(
                    old(self).supervisor(),
                    final(self).supervisor(),
                    e,
                ),
                None => *final(self) == *old(self),
            },
    {
        self.inner.handle_raw_event(record)
    }

    /// How many callbacks are registered.
    pub fn callback_count(&self) -> (r: usize)
        ensures
            r == self.supervisor().entries().len(),
    {
        self.inner.callback_count()
    }

    /// A shared borrow of the raw source, for inspection.
    pub fn raw_source(&self) -> (r: &S)
        ensures
            *r == self.supervisor().source(),
    {
        self.inner.raw_source()
    }

    /// A shared borrow of the entry at position `i`, for inspection.
    pub fn entry_at(&self, i: usize) -> (r: &crate::registry::Entry<F>)
        requires
            i < self.supervisor().entries().len(),
        ensures
            *r == self.supervisor().entries()[i as int],
    {
        self.inner.entry_at(i)
    }
}

} // verus!
