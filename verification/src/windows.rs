//! The OS-native global-hook backend family: one process-wide low-level
//! callback is installed into the system's message loop, and every
//! qualifying message is normalized here into a unified event.
//!
//! Installing the hook, pumping the message loop, and the one-shot input
//! injection calls stay outside the library; what reaches these functions
//! is the plain content of one hook invocation — the message tag, the
//! pointer coordinates, and the packed wheel data.

use vstd::prelude::*;

use crate::common::{CallbackId, EventCallback, MouseButton, MouseEvent, ScrollDirection};
use crate::error::Error;
use crate::supervisor::{ListenerSupervisor, RawEventSource};

verus! {

/// Message tag: pointer motion.
pub const WM_MOUSEMOVE: u32 = 0x0200;

/// Message tag: left button down.
pub const WM_LBUTTONDOWN: u32 = 0x0201;

/// Message tag: left button up.
pub const WM_LBUTTONUP: u32 = 0x0202;

/// Message tag: right button down.
pub const WM_RBUTTONDOWN: u32 = 0x0204;

/// Message tag: right button up.
pub const WM_RBUTTONUP: u32 = 0x0205;

/// Message tag: middle button down.
pub const WM_MBUTTONDOWN: u32 = 0x0207;

/// Message tag: middle button up.
pub const WM_MBUTTONUP: u32 = 0x0208;

/// Message tag: vertical wheel.
pub const WM_MOUSEWHEEL: u32 = 0x020A;

/// Message tag: horizontal wheel.
pub const WM_MOUSEHWHEEL: u32 = 0x020E;

/// One wheel notch, in raw delta units.
pub const WHEEL_DELTA: i32 = 120;

/// Input flag: press the left button.
pub const MOUSEEVENTF_LEFTDOWN: u32 = 0x0002;

/// Input flag: release the left button.
pub const MOUSEEVENTF_LEFTUP: u32 = 0x0004;

/// Input flag: press the right button.
pub const MOUSEEVENTF_RIGHTDOWN: u32 = 0x0008;

/// Input flag: release the right button.
pub const MOUSEEVENTF_RIGHTUP: u32 = 0x0010;

/// Input flag: press the middle button.
pub const MOUSEEVENTF_MIDDLEDOWN: u32 = 0x0020;

/// Input flag: release the middle button.
pub const MOUSEEVENTF_MIDDLEUP: u32 = 0x0040;

/// Input flag: move the vertical wheel.
pub const MOUSEEVENTF_WHEEL: u32 = 0x0800;

/// Input flag: move the horizontal wheel.
pub const MOUSEEVENTF_HWHEEL: u32 = 0x1000;

/// The raw delta injected per scroll step by the one-shot scroll action.
pub const SCROLL_STEP_DELTA: i32 = 150;

/// The signed wheel delta packed into the high word of a hook record's
/// `mouse_data` field.
pub open spec fn wheel_delta_of(mouse_data: u32) -> int {
    let w = (mouse_data >> 16) & 0xffff;
    if w >= 0x8000 {
        w - 0x10000
    } else {
        w as int
    }
}

/// What one hook invocation means: exactly one unified event, or none.
///
/// Button messages map to presses and releases of the three buttons;
/// motion carries absolute screen coordinates; a wheel message scrolls —
/// the sign of its delta picks the direction, its whole notches the
/// magnitude — and a zero-delta wheel message is dropped, as is every
/// other message tag.
pub open spec fn windows_event(w_param: u32, x: i32, y: i32, mouse_data: u32) -> Option<
    MouseEvent,
> {
    if w_param == WM_MOUSEMOVE {
        Some(MouseEvent::AbsoluteMove(x, y))
    } else if w_param == WM_LBUTTONDOWN {
        Some(MouseEvent::Press(MouseButton::Left))
    } else if w_param == WM_LBUTTONUP {
        Some(MouseEvent::Release(MouseButton::Left))
    } else if w_param == WM_RBUTTONDOWN {
        Some(MouseEvent::Press(MouseButton::Right))
    } else if w_param == WM_RBUTTONUP {
        Some(MouseEvent::Release(MouseButton::Right))
    } else if w_param == WM_MBUTTONDOWN {
        Some(MouseEvent::Press(MouseButton::Middle))
    } else if w_param == WM_MBUTTONUP {
        Some(MouseEvent::Release(MouseButton::Middle))
    } else if w_param == WM_MOUSEWHEEL {
        let d = wheel_delta_of(mouse_data);
        if d > 0 {
            Some(MouseEvent::Scroll(ScrollDirection::Up, (d / (WHEEL_DELTA as int)) as u32))
        } else if d < 0 {
            Some(MouseEvent::Scroll(ScrollDirection::Down, ((-d) / (WHEEL_DELTA as int)) as u32))
        } else {
            None
        }
    } else if w_param == WM_MOUSEHWHEEL {
        let d = wheel_delta_of(mouse_data);
        if d > 0 {
            Some(MouseEvent::Scroll(ScrollDirection::Right, (d / (WHEEL_DELTA as int)) as u32))
        } else if d < 0 {
            Some(MouseEvent::Scroll(ScrollDirection::Left, ((-d) / (WHEEL_DELTA as int)) as u32))
        } else {
            None
        }
    } else {
        None
    }
}

/// The signed wheel delta of a hook record, as an executable value.
pub fn wheel_delta_value(mouse_data: u32) -> (r: i32)
    ensures
        r == wheel_delta_of(mouse_data),
{
    let w = (mouse_data >> 16) & 0xffff;
    proof {
        assert(((mouse_data >> 16) & 0xffff) <= 0xffff) by (bit_vector);
    }
    let v = w as i32;
    if v >= 0x8000 {
        v - 0x10000
    } else {
        v
    }
}

/// Normalizes one hook invocation; pure and total, never an error.
pub fn normalize_windows(w_param: u32, x: i32, y: i32, mouse_data: u32) -> (r: Option<MouseEvent>)
    ensures
        r == windows_event(w_param, x, y, mouse_data),
{
    if w_param == WM_MOUSEMOVE {
        Some(MouseEvent::AbsoluteMove(x, y))
    } else if w_param == WM_LBUTTONDOWN {
        Some(MouseEvent::Press(MouseButton::Left))
    } else if w_param == WM_LBUTTONUP {
        Some(MouseEvent::Release(MouseButton::Left))
    } else if w_param == WM_RBUTTONDOWN {
        Some(MouseEvent::Press(MouseButton::Right))
    } else if w_param == WM_RBUTTONUP {
        Some(MouseEvent::Release(MouseButton::Right))
    } else if w_param == WM_MBUTTONDOWN {
        Some(MouseEvent::Press(MouseButton::Middle))
    } else if w_param == WM_MBUTTONUP {
        Some(MouseEvent::Release(MouseButton::Middle))
    } else if w_param == WM_MOUSEWHEEL {
        let d = wheel_delta_value(mouse_data);
        if d > 0 {
            Some(MouseEvent::Scroll(ScrollDirection::Up, (d / WHEEL_DELTA) as u32))
        } else if d < 0 {
            Some(MouseEvent::Scroll(ScrollDirection::Down, ((-d) / WHEEL_DELTA) as u32))
        } else {
            None
        }
    } else if w_param == WM_MOUSEHWHEEL {
        let d = wheel_delta_value(mouse_data);
        if d > 0 {
            Some(MouseEvent::Scroll(ScrollDirection::Right, (d / WHEEL_DELTA) as u32))
        } else if d < 0 {
            Some(MouseEvent::Scroll(ScrollDirection::Left, ((-d) / WHEEL_DELTA) as u32))
        } else {
            None
        }
    } else {
        None
    }
}

/// The input flag that presses `button`.
pub fn button_press_flag(button: &MouseButton) -> (r: u32)
    ensures
        r == (match *button {
            MouseButton::Left => MOUSEEVENTF_LEFTDOWN,
            MouseButton::Middle => MOUSEEVENTF_MIDDLEDOWN,
            MouseButton::Right => MOUSEEVENTF_RIGHTDOWN,
        }),
{
    match button {
        MouseButton::Left => MOUSEEVENTF_LEFTDOWN,
        MouseButton::Middle => MOUSEEVENTF_MIDDLEDOWN,
        MouseButton::Right => MOUSEEVENTF_RIGHTDOWN,
    }
}

/// The input flag that releases `button`.
pub fn button_release_flag(button: &MouseButton) -> (r: u32)
    ensures
        r == (match *button {
            MouseButton::Left => MOUSEEVENTF_LEFTUP,
            MouseButton::Middle => MOUSEEVENTF_MIDDLEUP,
            MouseButton::Right => MOUSEEVENTF_RIGHTUP,
        }),
{
    match button {
        MouseButton::Left => MOUSEEVENTF_LEFTUP,
        MouseButton::Middle => MOUSEEVENTF_MIDDLEUP,
        MouseButton::Right => MOUSEEVENTF_RIGHTUP,
    }
}

/// The input flag and signed delta that scroll one step towards
/// `direction`.
pub fn scroll_input_params(direction: &ScrollDirection) -> (r: (u32, i32))
    ensures
        r == (match *direction {
            ScrollDirection::Up => (MOUSEEVENTF_WHEEL, SCROLL_STEP_DELTA),
            ScrollDirection::Down => (MOUSEEVENTF_WHEEL, (-(SCROLL_STEP_DELTA as int)) as i32),
            ScrollDirection::Right => (MOUSEEVENTF_HWHEEL, SCROLL_STEP_DELTA),
            ScrollDirection::Left => (MOUSEEVENTF_HWHEEL, (-(SCROLL_STEP_DELTA as int)) as i32),
        }),
{
    match direction {
        ScrollDirection::Up => (MOUSEEVENTF_WHEEL, SCROLL_STEP_DELTA),
        ScrollDirection::Down => (MOUSEEVENTF_WHEEL, -SCROLL_STEP_DELTA),
        ScrollDirection::Right => (MOUSEEVENTF_HWHEEL, SCROLL_STEP_DELTA),
        ScrollDirection::Left => (MOUSEEVENTF_HWHEEL, -SCROLL_STEP_DELTA),
    }
}

/// The manager for the global-hook family: the listener supervisor
/// specialized with this family's normalizer.
pub struct WindowsMouseManager<S, F> {
    sup: ListenerSupervisor<S, F>,
}

impl<S: RawEventSource, F: EventCallback> WindowsMouseManager<S, F> {
    /// The supervisor as the contracts see it.
    pub closed spec fn supervisor(&self) -> ListenerSupervisor<S, F> {
        self.sup
    }

    /// Well-formedness, inherited from the supervisor.
    pub open spec fn wf(&self) -> bool {
        self.supervisor().wf()
    }

    /// A manager that has not started listening and holds no callbacks.
    pub fn new(source: S) -> (r: Self)
        ensures
            r.wf(),
            r.supervisor().source() == source,
            r.supervisor().entries() == Seq::<crate::registry::Entry<F>>::empty(),
            r.supervisor().counter() == 0,
            !r.supervisor().listening(),
    {
        WindowsMouseManager { sup: ListenerSupervisor::new(source) }
    }

    /// Registers `callback`, installing the hook first if this is the
    /// first one; returns the fresh id.
    pub fn hook(&mut self, callback: F) -> (r: Result<CallbackId, Error>)
        requires
            old(self).wf(),
        ensures
            final(self).wf(),
            ListenerSupervisor::hook_post(
                old(self).supervisor(),
                final(self).supervisor(),
                callback,
                r,
            ),
    {
        self.sup.hook(callback)
    }

    /// Removes the callback registered under `id`.
    pub fn unhook(&mut self, id: CallbackId) -> (r: Result<(), Error>)
        requires
            old(self).wf(),
        ensures
            final(self).wf(),
            ListenerSupervisor::unhook_post(
                old(self).supervisor(),
                final(self).supervisor(),
                id,
                r,
            ),
    {
        self.sup.unhook(id)
    }

    /// Removes every callback.
    pub fn unhook_all(&mut self) -> (r: Result<(), Error>)
        requires
            old(self).wf(),
        ensures
            final(self).wf(),
            ListenerSupervisor::unhook_all_post(old(self).supervisor(), final(self).supervisor(), r),
    {
        self.sup.unhook_all()
    }

    /// Takes one hook invocation, normalizes it, and fans the resulting
    /// event — if there is one — out to every registered callback.
    pub fn handle_raw_event(&mut self, w_param: u32, x: i32, y: i32, mouse_data: u32)
        requires
            old(self).wf(),
        ensures
            final(self).wf(),
            match windows_event(w_param, x, y, mouse_data) {
                Some(e) => ListenerSupervisor::dispatch_post(
                    old(self).supervisor(),
                    final(self).supervisor(),
                    e,
                ),
                None => *final(self) == *old(self),
            },
    {
        match normalize_windows(w_param, x, y, mouse_data) {
            Some(e) => self.sup.dispatch_event(&e),
            None => (),
        }
    }

    /// How many callbacks are registered.
    pub fn callback_count(&self) -> (r: usize)
        ensures
            r == self.supervisor().entries().len(),
    {
        self.sup.callback_count()
    }

    /// A shared borrow of the raw source, for inspection.
    pub fn raw_source(&self) -> (r: &S)
        ensures
            *r == self.supervisor().source(),
    {
        self.sup.raw_source()
    }

    /// A shared borrow of the entry at position `i`, for inspection.
    pub fn entry_at(&self, i: usize) -> (r: &crate::registry::Entry<F>)
        requires
            i < self.supervisor().entries().len(),
        ensures
            *r == self.supervisor().entries()[i as int],
    {
        self.sup.entry_at(i)
    }
}

} // verus!
