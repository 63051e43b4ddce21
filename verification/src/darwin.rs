//! The windowing-event-tap backend family: a process-wide event tap is
//! registered with the display server, which invokes one callback per
//! qualifying event; the callback's payload is normalized here.
//!
//! Creating the tap, running its loop, and the one-shot event-posting
//! calls stay outside the library; what reaches these functions is the
//! plain content of one tap invocation — the event type tag, the pointer
//! location, and the two signed wheel deltas.

use vstd::prelude::*;

use crate::common::{CallbackId, EventCallback, MouseButton, MouseEvent, ScrollDirection};
use crate::error::Error;
use crate::supervisor::{ListenerSupervisor, RawEventSource};

verus! {

/// Event type tag: left button down.
pub const CG_LEFT_MOUSE_DOWN: u32 = 1;

/// Event type tag: left button up.
pub const CG_LEFT_MOUSE_UP: u32 = 2;

/// Event type tag: right button down.
pub const CG_RIGHT_MOUSE_DOWN: u32 = 3;

/// Event type tag: right button up.
pub const CG_RIGHT_MOUSE_UP: u32 = 4;

/// Event type tag: pointer motion.
pub const CG_MOUSE_MOVED: u32 = 5;

/// Event type tag: wheel motion.
pub const CG_SCROLL_WHEEL: u32 = 22;

/// Event type tag: middle (other) button down.
pub const CG_OTHER_MOUSE_DOWN: u32 = 25;

/// Event type tag: middle (other) button up.
pub const CG_OTHER_MOUSE_UP: u32 = 26;

/// Native button number: left.
pub const CG_BUTTON_LEFT: u32 = 0;

/// Native button number: right.
pub const CG_BUTTON_RIGHT: u32 = 1;

/// Native button number: center.
pub const CG_BUTTON_CENTER: u32 = 2;

/// The signed distance the one-shot scroll action posts per call:
/// positive rolls up or left, negative down or right.
pub const SCROLL_STEP_DISTANCE: i32 = 5;

/// A wheel delta's absolute value, clamped into the magnitude range of a
/// scroll event.
pub open spec fn clamped_magnitude(delta: int) -> u32 {
    let a = if delta >= 0 {
        delta
    } else {
        -delta
    };
    if a > u32::MAX {
        u32::MAX
    } else {
        a as u32
    }
}

/// What one tap invocation means: exactly one unified event, or none.
///
/// Button tags map to presses and releases; motion carries the absolute
/// pointer location; a wheel tag scrolls by whichever of its two deltas
/// is nonzero — the vertical axis wins, its sign picks up or down, and on
/// the horizontal axis a negative delta rolls right — or is dropped when
/// both deltas are zero, as is every other tag.
pub open spec fn darwin_event(
    event_type: u32,
    x: i32,
    y: i32,
    wheel_delta: i64,
    hwheel_delta: i64,
) -> Option<MouseEvent> {
    if event_type == CG_LEFT_MOUSE_DOWN {
        Some(MouseEvent::Press(MouseButton::Left))
    } else if event_type == CG_LEFT_MOUSE_UP {
        Some(MouseEvent::Release(MouseButton::Left))
    } else if event_type == CG_RIGHT_MOUSE_DOWN {
        Some(MouseEvent::Press(MouseButton::Right))
    } else if event_type == CG_RIGHT_MOUSE_UP {
        Some(MouseEvent::Release(MouseButton::Right))
    } else if event_type == CG_OTHER_MOUSE_DOWN {
        Some(MouseEvent::Press(MouseButton::Middle))
    } else if event_type == CG_OTHER_MOUSE_UP {
        Some(MouseEvent::Release(MouseButton::Middle))
    } else if event_type == CG_MOUSE_MOVED {
        Some(MouseEvent::AbsoluteMove(x, y))
    } else if event_type == CG_SCROLL_WHEEL {
        if wheel_delta > 0 {
            Some(MouseEvent::Scroll(ScrollDirection::Up, clamped_magnitude(wheel_delta as int)))
        } else if wheel_delta < 0 {
            Some(MouseEvent::Scroll(ScrollDirection::Down, clamped_magnitude(wheel_delta as int)))
        } else if hwheel_delta < 0 {
            Some(MouseEvent::Scroll(ScrollDirection::Right, clamped_magnitude(hwheel_delta as int)))
        } else if hwheel_delta > 0 {
            Some(MouseEvent::Scroll(ScrollDirection::Left, clamped_magnitude(hwheel_delta as int)))
        } else {
            None
        }
    } else {
        None
    }
}

/// A wheel delta's absolute value, clamped, as an executable value.
fn clamp_magnitude(delta: i64) -> (r: u32)
    ensures
        r == clamped_magnitude(delta as int),
{
    let wide: i128 = delta as i128;
    let a: i128 = if wide >= 0 {
        wide
    } else {
        -wide
    };
    if a > u32::MAX as i128 {
        u32::MAX
    } else {
        a as u32
    }
}

/// Normalizes one tap invocation; pure and total, never an error.
pub fn normalize_darwin(
    event_type: u32,
    x: i32,
    y: i32,
    wheel_delta: i64,
    hwheel_delta: i64,
) -> (r: Option<MouseEvent>)
    ensures
        r == darwin_event(event_type, x, y, wheel_delta, hwheel_delta),
{
    if event_type == CG_LEFT_MOUSE_DOWN {
        Some(MouseEvent::Press(MouseButton::Left))
    } else if event_type == CG_LEFT_MOUSE_UP {
        Some(MouseEvent::Release(MouseButton::Left))
    } else if event_type == CG_RIGHT_MOUSE_DOWN {
        Some(MouseEvent::Press(MouseButton::Right))
    } else if event_type == CG_RIGHT_MOUSE_UP {
        Some(MouseEvent::Release(MouseButton::Right))
    } else if event_type == CG_OTHER_MOUSE_DOWN {
        Some(MouseEvent::Press(MouseButton::Middle))
    } else if event_type == CG_OTHER_MOUSE_UP {
        Some(MouseEvent::Release(MouseButton::Middle))
    } else if event_type == CG_MOUSE_MOVED {
        Some(MouseEvent::AbsoluteMove(x, y))
    } else if event_type == CG_SCROLL_WHEEL {
        if wheel_delta > 0 {
            Some(MouseEvent::Scroll(ScrollDirection::Up, clamp_magnitude(wheel_delta)))
        } else if wheel_delta < 0 {
            Some(MouseEvent::Scroll(ScrollDirection::Down, clamp_magnitude(wheel_delta)))
        } else if hwheel_delta < 0 {
            Some(MouseEvent::Scroll(ScrollDirection::Right, clamp_magnitude(hwheel_delta)))
        } else if hwheel_delta > 0 {
            Some(MouseEvent::Scroll(ScrollDirection::Left, clamp_magnitude(hwheel_delta)))
        } else {
            None
        }
    } else {
        None
    }
}

/// The event type tag and native button number that press `button`.
pub fn press_event_params(button: &MouseButton) -> (r: (u32, u32))
    ensures
        r == (match *button {
            MouseButton::Left => (CG_LEFT_MOUSE_DOWN, CG_BUTTON_LEFT),
            MouseButton::Middle => (CG_OTHER_MOUSE_DOWN, CG_BUTTON_CENTER),
            MouseButton::Right => (CG_RIGHT_MOUSE_DOWN, CG_BUTTON_RIGHT),
        }),
{
    match button {
        MouseButton::Left => (CG_LEFT_MOUSE_DOWN, CG_BUTTON_LEFT),
        MouseButton::Middle => (CG_OTHER_MOUSE_DOWN, CG_BUTTON_CENTER),
        MouseButton::Right => (CG_RIGHT_MOUSE_DOWN, CG_BUTTON_RIGHT),
    }
}

/// The event type tag and native button number that release `button`.
pub fn release_event_params(button: &MouseButton) -> (r: (u32, u32))
    ensures
        r == (match *button {
            MouseButton::Left => (CG_LEFT_MOUSE_UP, CG_BUTTON_LEFT),
            MouseButton::Middle => (CG_OTHER_MOUSE_UP, CG_BUTTON_CENTER),
            MouseButton::Right => (CG_RIGHT_MOUSE_UP, CG_BUTTON_RIGHT),
        }),
{
    match button {
        MouseButton::Left => (CG_LEFT_MOUSE_UP, CG_BUTTON_LEFT),
        MouseButton::Middle => (CG_OTHER_MOUSE_UP, CG_BUTTON_CENTER),
        MouseButton::Right => (CG_RIGHT_MOUSE_UP, CG_BUTTON_RIGHT),
    }
}

/// The signed distance the one-shot scroll action posts for `direction`.
pub fn scroll_step_distance(direction: &ScrollDirection) -> (r: i32)
    ensures
        r == (match *direction {
            ScrollDirection::Up => SCROLL_STEP_DISTANCE,
            ScrollDirection::Left => SCROLL_STEP_DISTANCE,
            ScrollDirection::Down => (-(SCROLL_STEP_DISTANCE as int)) as i32,
            ScrollDirection::Right => (-(SCROLL_STEP_DISTANCE as int)) as i32,
        }),
{
    match direction {
        ScrollDirection::Up => SCROLL_STEP_DISTANCE,
        ScrollDirection::Left => SCROLL_STEP_DISTANCE,
        ScrollDirection::Down => -SCROLL_STEP_DISTANCE,
        ScrollDirection::Right => -SCROLL_STEP_DISTANCE,
    }
}

/// The vertical and horizontal wheel distances a posted scroll event
/// carries: the vertical wheel for up or down, the horizontal otherwise.
pub fn scroll_event_wheels(direction: &ScrollDirection, distance: i32) -> (r: (i32, i32))
    ensures
        r == (match *direction {
            ScrollDirection::Up => (distance, 0i32),
            ScrollDirection::Down => (distance, 0i32),
            ScrollDirection::Right => (0i32, distance),
            ScrollDirection::Left => (0i32, distance),
        }),
{
    match direction {
        ScrollDirection::Up => (distance, 0),
        ScrollDirection::Down => (distance, 0),
        ScrollDirection::Right => (0, distance),
        ScrollDirection::Left => (0, distance),
    }
}

/// The manager for the event-tap family: the listener supervisor
/// specialized with this family's normalizer.
pub struct DarwinMouseManager<S, F> {
    sup: ListenerSupervisor<S, F>,
}

impl<S: RawEventSource, F: EventCallback> DarwinMouseManager<S, F> {
    /// The supervisor as the contracts see it.
    pub closed spec fn supervisor(&self) -> ListenerSupervisor<S, F> {
        self.sup
    }

    /// Well-formedness, inherited from the supervisor.
    pub open spec fn wf(&self) -> bool {
        self.supervisor().wf()
    }

    /// A manager that has not started listening and holds no callbacks.
    pub fn new(source: S) -> (r: Self)
        ensures
            r.wf(),
            r.supervisor().source() == source,
            r.supervisor().entries() == Seq::<crate::registry::Entry<F>>::empty(),
            r.supervisor().counter() == 0,
            !r.supervisor().listening(),
    {
        DarwinMouseManager { sup: ListenerSupervisor::new(source) }
    }

    /// Registers `callback`, creating the event tap first if this is the
    /// first one; returns the fresh id.
    pub fn hook(&mut self, callback: F) -> (r: Result<CallbackId, Error>)
        requires
            old(self).wf(),
        ensures
            final(self).wf(),
            ListenerSupervisor::hook_post(
                old(self).supervisor(),
                final(self).supervisor(),
                callback,
                r,
            ),
    {
        self.sup.hook(callback)
    }

    /// Removes the callback registered under `id`.
    pub fn unhook(&mut self, id: CallbackId) -> (r: Result<(), Error>)
        requires
            old(self).wf(),
        ensures
            final(self).wf(),
            ListenerSupervisor::unhook_post(
                old(self).supervisor(),
                final(self).supervisor(),
                id,
                r,
            ),
    {
        self.sup.unhook(id)
    }

    /// Removes every callback.
    pub fn unhook_all(&mut self) -> (r: Result<(), Error>)
        requires
            old(self).wf(),
        ensures
            final(self).wf(),
            ListenerSupervisor::unhook_all_post(old(self).supervisor(), final(self).supervisor(), r),
    {
        self.sup.unhook_all()
    }

    /// Takes one tap invocation, normalizes it, and fans the resulting
    /// event — if there is one — out to every registered callback.
    pub fn handle_raw_event(
        &mut self,
        event_type: u32,
        x: i32,
        y: i32,
        wheel_delta: i64,
        hwheel_delta: i64,
    )
        requires
            old(self).wf(),
        ensures
            final(self).wf(),
            match darwin_event(event_type, x, y, wheel_delta, hwheel_delta) {
                Some(e) => ListenerSupervisor::dispatch_post(
                    old(self).supervisor(),
                    final(self).supervisor(),
                    e,
                ),
                None => *final(self) == *old(self),
            },
    {
        match normalize_darwin(event_type, x, y, wheel_delta, hwheel_delta) {
            Some(e) => self.sup.dispatch_event(&e),
            None => (),
        }
    }

    /// How many callbacks are registered.
    pub fn callback_count(&self) -> (r: usize)
        ensures
            r == self.supervisor().entries().len(),
    {
        self.sup.callback_count()
    }

    /// A shared borrow of the raw source, for inspection.
    pub fn raw_source(&self) -> (r: &S)
        ensures
            *r == self.supervisor().source(),
    {
        self.sup.raw_source()
    }

    /// A shared borrow of the entry at position `i`, for inspection.
    pub fn entry_at(&self, i: usize) -> (r: &crate::registry::Entry<F>)
        requires
            i < self.supervisor().entries().len(),
        ensures
            *r == self.supervisor().entries()[i as int],
    {
        self.sup.entry_at(i)
    }
}

} // verus!
