//! The X11 action path: the button-number tables that the test-extension
//! calls are made with.  Opening the display and issuing the calls stay
//! outside the library; the listening side of this backend shares the
//! kernel-character-device listener.

use vstd::prelude::*;

use crate::common::{CallbackId, EventCallback, MouseButton, ScrollDirection};
use crate::error::Error;
use crate::nix::{evdev_event, normalize_evdev, InputEvent};
use crate::supervisor::{ListenerSupervisor, RawEventSource};

verus! {

/// The X11 pointer-button number that presses or releases `button`.
pub fn x11_button_number(button: &MouseButton) -> (r: u32)
    ensures
        r == (match *button {
            MouseButton::Left => 1u32,
            MouseButton::Middle => 2u32,
            MouseButton::Right => 3u32,
        }),
{
    match button {
        MouseButton::Left => 1,
        MouseButton::Middle => 2,
        MouseButton::Right => 3,
    }
}

/// The X11 pointer-button number whose click scrolls one step towards
/// `direction`.
pub fn x11_scroll_button(direction: &ScrollDirection) -> (r: u32)
    ensures
        r == (match *direction {
            ScrollDirection::Up => 4u32,
            ScrollDirection::Down => 5u32,
            ScrollDirection::Left => 6u32,
            ScrollDirection::Right => 7u32,
        }),
{
    match direction {
        ScrollDirection::Up => 4,
        ScrollDirection::Down => 5,
        ScrollDirection::Left => 6,
        ScrollDirection::Right => 7,
    }
}

/// The manager for unix-like systems running X11: actions go through the
/// test extension, while the listening side shares the kernel-device
/// family's raw records and normalizer.
pub struct X11MouseManager<S, F> {
    sup: ListenerSupervisor<S, F>,
}

impl<S: RawEventSource, F: EventCallback> X11MouseManager<S, F> {
    /// The supervisor as the contracts see it.
    pub closed spec fn supervisor(&self) -> ListenerSupervisor<S, F> {
        self.sup
    }

    /// Well-formedness, inherited from the supervisor.
    pub open spec fn wf(&self) -> bool {
        self.supervisor().wf()
    }

    /// A manager that has not started listening and holds no callbacks.
    pub fn new(source: S) -> (r: Self)
        ensures
            r.wf(),
            r.supervisor().source() == source,
            r.supervisor().entries() == Seq::<crate::registry::Entry<F>>::empty(),
            r.supervisor().counter() == 0,
            !r.supervisor().listening(),
    {
        X11MouseManager { sup: ListenerSupervisor::new(source) }
    }

    /// Registers `callback`, opening the device files first if this is
    /// the first one; returns the fresh id.
    pub fn hook(&mut self, callback: F) -> (r: Result<CallbackId, Error>)
        requires
            old(self).wf(),
        ensures
            final(self).wf(),
            ListenerSupervisor::hook_post(
                old(self).supervisor(),
                final(self).supervisor(),
                callback,
                r,
            ),
    {
        self.sup.hook(callback)
    }

    /// Removes the callback registered under `id`.
    pub fn unhook(&mut self, id: CallbackId) -> (r: Result<(), Error>)
        requires
            old(self).wf(),
        ensures
            final(self).wf(),
            ListenerSupervisor::unhook_post(
                old(self).supervisor(),
                final(self).supervisor(),
                id,
                r,
            ),
    {
        self.sup.unhook(id)
    }

    /// Removes every callback.
    pub fn unhook_all(&mut self) -> (r: Result<(), Error>)
        requires
            old(self).wf(),
        ensures
            final(self).wf(),
            ListenerSupervisor::unhook_all_post(old(self).supervisor(), final(self).supervisor(), r),
    {
        self.sup.unhook_all()
    }

    /// Takes one raw record, normalizes it, and fans the resulting event
    /// — if there is one — out to every registered callback.
    pub fn handle_raw_event(&mut self, record: &InputEvent)
        requires
            old(self).wf(),
        ensures
            final(self).wf(),
            match evdev_event(record.kind, record.code, record.value) {
                Some(e) => ListenerSupervisor::dispatch_post(
                    old(self).supervisor(),
                    final(self).supervisor(),
                    e,
                ),
                None => *final(self) == *old(self),
            },
    {
        match normalize_evdev(record) {
            Some(e) => self.sup.dispatch_event(&e),
            None => (),
        }
    }

    /// How many callbacks are registered.
    pub fn callback_count(&self) -> (r: usize)
        ensures
            r == self.supervisor().entries().len(),
    {
        self.sup.callback_count()
    }

    /// A shared borrow of the raw source, for inspection.
    pub fn raw_source(&self) -> (r: &S)
        ensures
            *r == self.supervisor().source(),
    {
        self.sup.raw_source()
    }

    /// A shared borrow of the entry at position `i`, for inspection.
    pub fn entry_at(&self, i: usize) -> (r: &crate::registry::Entry<F>)
        requires
            i < self.supervisor().entries().len(),
        ensures
            *r == self.supervisor().entries()[i as int],
    {
        self.sup.entry_at(i)
    }
}

} // verus!
