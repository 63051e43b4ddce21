//! The kernel-character-device backend family: raw input records read from
//! device files, their normalization into unified events, and the pure
//! pieces of device discovery and of the uinput action path.
//!
//! The I/O itself — walking the device directories, resolving symlinks,
//! opening device files, the blocking reads — stays outside the library;
//! what reaches these functions is the plain content of one raw record.

use vstd::prelude::*;

use crate::common::{CallbackId, EventCallback, MouseButton, MouseEvent, ScrollDirection};
use crate::error::Error;
use crate::supervisor::{ListenerSupervisor, RawEventSource};

verus! {

/// Event kind of a key (button) record.
pub const EV_KEY: u16 = 0x01;

/// Event kind of a relative-axis record.
pub const EV_REL: u16 = 0x02;

/// Event kind of a synchronization record.
pub const EV_SYN: u16 = 0x00;

/// Code of the synchronization report.
pub const SYN_REPORT: u16 = 0x00;

/// Relative-axis code: horizontal motion.
pub const REL_X: u16 = 0x00;

/// Relative-axis code: vertical motion.
pub const REL_Y: u16 = 0x01;

/// Relative-axis code: horizontal wheel.
pub const REL_HWHEEL: u16 = 0x06;

/// Relative-axis code: vertical wheel.
pub const REL_WHEEL: u16 = 0x08;

/// Button code: left mouse button.
pub const BTN_LEFT: u16 = 0x110;

/// Button code: right mouse button.
pub const BTN_RIGHT: u16 = 0x111;

/// Button code: middle mouse button.
pub const BTN_MIDDLE: u16 = 0x112;

/// The capacity of a uinput device-name buffer.
pub const UINPUT_MAX_NAME_SIZE: usize = 80;

/// The timestamp of a raw input record.
#[derive(Debug, Copy, Clone, PartialEq, Eq, Structural)]
pub struct TimeVal {
    pub tv_sec: u64,
    pub tv_usec: u64,
}

/// One fixed-size raw input record, as the kernel delivers it: an event
/// kind, a code within that kind, and a signed value.
#[derive(Debug, Copy, Clone, PartialEq, Eq, Structural)]
pub struct InputEvent {
    pub time: TimeVal,
    pub kind: u16,
    pub code: u16,
    pub value: i32,
}

/// The absolute value of a record's signed value, as the magnitude of a
/// scroll event.
pub open spec fn magnitude(value: i32) -> u32 {
    if value >= 0 {
        value as u32
    } else {
        (-(value as int)) as u32
    }
}

/// What one raw record means: exactly one unified event, or none.
///
/// A key record with one of the three known button codes becomes a press
/// (value one) or a release; unknown button codes are dropped.  A
/// relative-axis record becomes a scroll on the wheel axes — direction
/// from the sign, magnitude from the absolute value — or a relative move
/// on the X/Y axes.  Every other record is dropped.
pub open spec fn evdev_event(kind: u16, code: u16, value: i32) -> Option<MouseEvent> {
    if kind == EV_KEY {
        let button = if code == BTN_LEFT {
            Some(MouseButton::Left)
        } else if code == BTN_RIGHT {
            Some(MouseButton::Right)
        } else if code == BTN_MIDDLE {
            Some(MouseButton::Middle)
        } else {
            None
        };
        match button {
            Some(b) => if value == 1 {
                Some(MouseEvent::Press(b))
            } else {
                Some(MouseEvent::Release(b))
            },
            None => None,
        }
    } else if kind == EV_REL {
        if code == REL_WHEEL {
            Some(
                MouseEvent::Scroll(
                    if value > 0 {
                        ScrollDirection::Up
                    } else {
                        ScrollDirection::Down
                    },
                    magnitude(value),
                ),
            )
        } else if code == REL_HWHEEL {
            Some(
                MouseEvent::Scroll(
                    if value > 0 {
                        ScrollDirection::Right
                    } else {
                        ScrollDirection::Left
                    },
                    magnitude(value),
                ),
            )
        } else if code == REL_X {
            Some(MouseEvent::RelativeMove(value, 0))
        } else if code == REL_Y {
            Some(MouseEvent::RelativeMove(0, value))
        } else {
            None
        }
    } else {
        None
    }
}

/// Normalizes one raw record; pure and total, never an error.
pub fn normalize_evdev(record: &InputEvent) -> (r: Option<MouseEvent>)
    ensures
        r == evdev_event(record.kind, record.code, record.value),
{
    let value = record.value;
    if record.kind == EV_KEY {
        let button = if record.code == BTN_LEFT {
            Some(MouseButton::Left)
        } else if record.code == BTN_RIGHT {
            Some(MouseButton::Right)
        } else if record.code == BTN_MIDDLE {
            Some(MouseButton::Middle)
        } else {
            None
        };
        match button {
            Some(b) => if value == 1 {
                Some(MouseEvent::Press(b))
            } else {
                Some(MouseEvent::Release(b))
            },
            None => None,
        }
    } else if record.kind == EV_REL {
        if record.code == REL_WHEEL {
            let direction = if value > 0 {
                ScrollDirection::Up
            } else {
                ScrollDirection::Down
            };
            Some(MouseEvent::Scroll(direction, unsigned_magnitude(value)))
        } else if record.code == REL_HWHEEL {
            let direction = if value > 0 {
                ScrollDirection::Right
            } else {
                ScrollDirection::Left
            };
            Some(MouseEvent::Scroll(direction, unsigned_magnitude(value)))
        } else if record.code == REL_X {
            Some(MouseEvent::RelativeMove(value, 0))
        } else if record.code == REL_Y {
            Some(MouseEvent::RelativeMove(0, value))
        } else {
            None
        }
    } else {
        None
    }
}

/// The absolute value of `value`, widened so that the minimum does not
/// overflow.
fn unsigned_magnitude(value: i32) -> (r: u32)
    ensures
        r == magnitude(value),
{
    if value >= 0 {
        value as u32
    } else {
        let wide: i64 = -(value as i64);
        wide as u32
    }
}

/// Whether some path in `s` reads `p`.
pub open spec fn has_path(s: Seq<String>, p: Seq<char>) -> bool {
    exists|i: int| 0 <= i < s.len() && (#[trigger] s[i])@ == p
}

/// Whether some path in `v` reads the same as `path`.
fn contains_path(v: &Vec<String>, path: &String) -> (r: bool)
    ensures
        r == has_path(v@, path@),
{
    let n = v.len();
    let mut i: usize = 0;
    while i < n
        invariant
            n == v@.len(),
            0 <= i <= n,
            forall|j: int| 0 <= j < i ==> (#[trigger] v@[j])@ != path@,
        decreases n - i,
    {
        if v[i] == *path {
            return true;
        }
        i = i + 1;
    }
    false
}

/// Drops duplicate device paths, keeping the first occurrence of each.
///
/// Several symlink names may resolve to the same canonical device file;
/// opening it twice would double-dispatch every one of its events, so the
/// result holds every path of the input exactly once.
pub fn unique_device_paths(paths: &Vec<String>) -> (r: Vec<String>)
    ensures
        forall|i: int| 0 <= i < r@.len() ==> has_path(paths@, (#[trigger] r@[i])@),
        forall|j: int| 0 <= j < paths@.len() ==> has_path(r@, (#[trigger] paths@[j])@),
        forall|i1: int, i2: int| 0 <= i1 < i2 < r@.len() ==> r@[i1]@ != r@[i2]@,
{
    let n = paths.len();
    let mut out: Vec<String> = Vec::new();
    let mut k: usize = 0;
    while k < n
        invariant
            n == paths@.len(),
            0 <= k <= n,
            forall|i: int| 0 <= i < out@.len() ==> has_path(paths@, (#[trigger] out@[i])@),
            forall|j: int| 0 <= j < k ==> has_path(out@, (#[trigger] paths@[j])@),
            forall|i1: int, i2: int| 0 <= i1 < i2 < out@.len() ==> out@[i1]@ != out@[i2]@,
        decreases n - k,
    {
        let ghost prev = out@;
        if !contains_path(&out, &paths[k]) {
            let copied = paths[k].clone();
            assert(copied@ == paths@[k as int]@);
            out.push(copied);
            proof {
                assert(out@ == prev.push(copied));
                assert(forall|i: int| 0 <= i < prev.len() ==> out@[i] == prev[i]);
                assert(out@[prev.len() as int] == copied);
                assert(has_path(paths@, copied@));
                assert forall|j: int| 0 <= j < k + 1 implies has_path(
                    out@,
                    (#[trigger] paths@[j])@,
                ) by {
                    if j < k {
                        let w = choose|w: int| 0 <= w < prev.len() && (#[trigger] prev[w])@
                            == paths@[j]@;
                        assert(out@[w]@ == paths@[j]@);
                    } else {
                        assert(out@[prev.len() as int]@ == paths@[j]@);
                    }
                }
                assert forall|i1: int, i2: int|
                    0 <= i1 < i2 < out@.len() implies out@[i1]@ != out@[i2]@ by {
                    if i2 == prev.len() as int {
                        assert(!has_path(prev, copied@));
                        assert((prev[i1])@ != copied@);
                    }
                }
            }
        } else {
            proof {
                assert(has_path(out@, paths@[k as int]@));
            }
        }
        k = k + 1;
    }
    out
}

/// Pads a uinput device name with trailing zero bytes to the fixed
/// buffer size the device setup call expects.
pub fn padded_device_name(name: &Vec<u8>) -> (r: Vec<u8>)
    requires
        name@.len() <= UINPUT_MAX_NAME_SIZE,
    ensures
        r@.len() == UINPUT_MAX_NAME_SIZE,
        forall|i: int| 0 <= i < name@.len() ==> r@[i] == name@[i],
        forall|i: int| name@.len() <= i < UINPUT_MAX_NAME_SIZE ==> r@[i] == 0,
{
    let n = name.len();
    let mut out: Vec<u8> = Vec::new();
    let mut i: usize = 0;
    while i < n
        invariant
            n == name@.len(),
            0 <= i <= n,
            out@.len() == i,
            forall|j: int| 0 <= j < i ==> out@[j] == name@[j],
        decreases n - i,
    {
        out.push(name[i]);
        i = i + 1;
    }
    while i < UINPUT_MAX_NAME_SIZE
        invariant
            n == name@.len(),
            n <= i <= UINPUT_MAX_NAME_SIZE,
            out@.len() == i,
            forall|j: int| 0 <= j < n ==> out@[j] == name@[j],
            forall|j: int| n <= j < i ==> out@[j] == 0,
        decreases UINPUT_MAX_NAME_SIZE - i,
    {
        out.push(0);
        i = i + 1;
    }
    out
}

/// The uinput relative-axis code and signed value that scroll one wheel
/// `distance` steps towards `direction`.
pub fn uinput_scroll_params(direction: &ScrollDirection, distance: u32) -> (r: (u16, i32))
    requires
        distance <= i32::MAX as u32,
    ensures
        r == (match *direction {
            ScrollDirection::Up => (REL_WHEEL, distance as i32),
            ScrollDirection::Down => (REL_WHEEL, (-(distance as int)) as i32),
            ScrollDirection::Left => (REL_HWHEEL, (-(distance as int)) as i32),
            ScrollDirection::Right => (REL_HWHEEL, distance as i32),
        }),
{
    match direction {
        ScrollDirection::Up => (REL_WHEEL, distance as i32),
        ScrollDirection::Down => (REL_WHEEL, -(distance as i32)),
        ScrollDirection::Left => (REL_HWHEEL, -(distance as i32)),
        ScrollDirection::Right => (REL_HWHEEL, distance as i32),
    }
}

/// The uinput button code a press or release of `button` is written with.
pub fn uinput_button_code(button: &MouseButton) -> (r: u16)
    ensures
        r == (match *button {
            MouseButton::Left => BTN_LEFT,
            MouseButton::Right => BTN_RIGHT,
            MouseButton::Middle => BTN_MIDDLE,
        }),
{
    match button {
        MouseButton::Left => BTN_LEFT,
        MouseButton::Right => BTN_RIGHT,
        MouseButton::Middle => BTN_MIDDLE,
    }
}

/// The manager for the kernel-character-device family: the listener
/// supervisor specialized with this family's normalizer.
pub struct UInputMouseManager<S, F> {
    sup: ListenerSupervisor<S, F>,
}

impl<S: RawEventSource, F: EventCallback> UInputMouseManager<S, F> {
    /// The supervisor as the contracts see it.
    pub closed spec fn supervisor(&self) -> ListenerSupervisor<S, F> {
        self.sup
    }

    /// Well-formedness, inherited from the supervisor.
    pub open spec fn wf(&self) -> bool {
        self.supervisor().wf()
    }

    /// A manager that has not started listening and holds no callbacks.
    pub fn new(source: S) -> (r: Self)
        ensures
            r.wf(),
            r.supervisor().source() == source,
            r.supervisor().entries() == Seq::<crate::registry::Entry<F>>::empty(),
            r.supervisor().counter() == 0,
            !r.supervisor().listening(),
    {
        UInputMouseManager { sup: ListenerSupervisor::new(source) }
    }

    /// Registers `callback`, opening the device files first if this is
    /// the first one; returns the fresh id.
    pub fn hook(&mut self, callback: F) -> (r: Result<CallbackId, Error>)
        requires
            old(self).wf(),
        ensures
            final(self).wf(),
            ListenerSupervisor::hook_post(
                old(self).supervisor(),
                final(self).supervisor(),
                callback,
                r,
            ),
    {
        self.sup.hook(callback)
    }

    /// Removes the callback registered under `id`.
    pub fn unhook(&mut self, id: CallbackId) -> (r: Result<(), Error>)
        requires
            old(self).wf(),
        ensures
            final(self).wf(),
            ListenerSupervisor::unhook_post(
                old(self).supervisor(),
                final(self).supervisor(),
                id,
                r,
            ),
    {
        self.sup.unhook(id)
    }

    /// Removes every callback.
    pub fn unhook_all(&mut self) -> (r: Result<(), Error>)
        requires
            old(self).wf(),
        ensures
            final(self).wf(),
            ListenerSupervisor::unhook_all_post(old(self).supervisor(), final(self).supervisor(), r),
    {
        self.sup.unhook_all()
    }

    /// Takes one raw record, normalizes it, and fans the resulting event
    /// — if there is one — out to every registered callback.
    pub fn handle_raw_event(&mut self, record: &InputEvent)
        requires
            old(self).wf(),
        ensures
            final(self).wf(),
            match evdev_event(record.kind, record.code, record.value) {
                Some(e) => ListenerSupervisor::dispatch_post(
                    old(self).supervisor(),
                    final(self).supervisor(),
                    e,
                ),
                None => *final(self) == *old(self),
            },
    {
        match normalize_evdev(record) {
            Some(e) => self.sup.dispatch_event(&e),
            None => (),
        }
    }

    /// How many callbacks are registered.
    pub fn callback_count(&self) -> (r: usize)
        ensures
            r == self.supervisor().entries().len(),
    {
        self.sup.callback_count()
    }

    /// A shared borrow of the raw source, for inspection.
    pub fn raw_source(&self) -> (r: &S)
        ensures
            *r == self.supervisor().source(),
    {
        self.sup.raw_source()
    }

    /// A shared borrow of the entry at position `i`, for inspection.
    pub fn entry_at(&self, i: usize) -> (r: &crate::registry::Entry<F>)
        requires
            i < self.supervisor().entries().len(),
        ensures
            *r == self.supervisor().entries()[i as int],
    {
        self.sup.entry_at(i)
    }
}

} // verus!
