//! The unified event vocabulary shared by every backend and every consumer,
//! together with the callback interface that listeners implement.

use vstd::prelude::*;
use vstd::string::StrSliceExecFns;

verus! {

/// Identifier handed out for a registered callback.
///
/// Ids are assigned by a monotonically increasing counter and are never
/// reused: once the id space is exhausted, further registrations are
/// rejected rather than wrapping around to an id a caller may still hold.
pub type CallbackId = u8;

#[derive(Debug, Copy, Clone, PartialEq, Eq, Structural)]
pub enum MouseButton {
    Left,
    Middle,
    Right,
}

#[derive(Debug, Copy, Clone, PartialEq, Eq, Structural)]
pub enum ScrollDirection {
    Up,
    Down,
    Right,
    Left,
}

#[derive(Debug, Copy, Clone, PartialEq, Eq, Structural)]
pub enum MouseEvent {
    RelativeMove(i32, i32),
    AbsoluteMove(i32, i32),
    Press(MouseButton),
    Release(MouseButton),
    Scroll(ScrollDirection, u32),
}

/// A listener callback.  The registry owns every registered callback
/// exclusively and is its sole invoker.
///
/// `log` is the abstract record of the events the callback has been
/// invoked with so far; `invoke` must extend it by exactly the event it
/// received, which is what lets the dispatch path prove that every
/// registered callback sees every event exactly once.
pub trait EventCallback: Sized {
    /// The events this callback has received so far, in order.
    ///
    /// The default stands only so that implementors outside the verifier
    /// need not spell out ghost state; no verified implementation can
    /// keep it, since `invoke` must extend the log.
    open spec fn log(&self) -> Seq<MouseEvent> {
        Seq::empty()
    }

    /// Hands one event to the callback.
    fn invoke(&mut self, event: &MouseEvent)
        ensures
            final(self).log() == old(self).log().push(*event);
}

/// A callback that stores every event it receives: the plainest
/// `EventCallback`, and the observer the scenario tests use.
pub struct RecordingCallback {
    pub received: Vec<MouseEvent>,
}

impl RecordingCallback {
    /// A recorder that has seen nothing yet.
    pub fn new() -> (r: Self)
        ensures
            r.log() == Seq::<MouseEvent>::empty(),
            r.received@ == Seq::<MouseEvent>::empty(),
    {
        let r = RecordingCallback { received: Vec::new() };
        proof {
            assert(r.received@ =~= Seq::<MouseEvent>::empty());
        }
        r
    }
}

impl EventCallback for RecordingCallback {
    open spec fn log(&self) -> Seq<MouseEvent> {
        self.received@
    }

    fn invoke(&mut self, event: &MouseEvent) {
        self.received.push(*event);
    }
}

/// Whether two strings hold the same characters.
fn str_eq(a: &str, b: &str) -> (r: bool)
    ensures
        r == (a@ == b@),
{
    let n = a.unicode_len();
    let m = b.unicode_len();
    if n != m {
        proof {
            if a@ == b@ {
                assert(a@.len() == b@.len());
            }
        }
        return false;
    }
    let mut i: usize = 0;
    while i < n
        invariant
            n == a@.len(),
            n == b@.len(),
            0 <= i <= n,
            forall|j: int| 0 <= j < i ==> a@[j] == b@[j],
        decreases n - i,
    {
        if a.get_char(i) != b.get_char(i) {
            proof {
                if a@ == b@ {
                    assert(a@[i as int] == b@[i as int]);
                }
            }
            return false;
        }
        i = i + 1;
    }
    proof {
        assert(a@ =~= b@);
    }
    true
}

/// Reads a button name; `left`, `right` and `middle` are the accepted
/// names, anything else is rejected.
pub fn get_mouse_button(name: &str) -> (r: Option<MouseButton>)
    ensures
        name@ == "left"@ ==> r == Some(MouseButton::Left),
        name@ == "right"@ ==> r == Some(MouseButton::Right),
        name@ == "middle"@ ==> r == Some(MouseButton::Middle),
        (name@ != "left"@ && name@ != "right"@ && name@ != "middle"@) ==> r is None,
{
    proof {
        reveal_strlit("left");
        reveal_strlit("right");
        reveal_strlit("middle");
        assert("left"@.len() == 4 && "right"@.len() == 5 && "middle"@.len() == 6);
        assert("left"@ != "right"@ && "left"@ != "middle"@ && "right"@ != "middle"@);
    }
    if str_eq(name, "left") {
        Some(MouseButton::Left)
    } else if str_eq(name, "right") {
        Some(MouseButton::Right)
    } else if str_eq(name, "middle") {
        Some(MouseButton::Middle)
    } else {
        None
    }
}

/// Reads a scroll direction name; `up`, `down`, `right` and `left` are
/// the accepted names, anything else is rejected.
pub fn get_scroll_direction(name: &str) -> (r: Option<ScrollDirection>)
    ensures
        name@ == "up"@ ==> r == Some(ScrollDirection::Up),
        name@ == "down"@ ==> r == Some(ScrollDirection::Down),
        name@ == "right"@ ==> r == Some(ScrollDirection::Right),
        name@ == "left"@ ==> r == Some(ScrollDirection::Left),
        (name@ != "up"@ && name@ != "down"@ && name@ != "right"@ && name@ != "left"@) ==> r is None,
{
    proof {
        reveal_strlit("up");
        reveal_strlit("down");
        reveal_strlit("right");
        reveal_strlit("left");
        assert("up"@.len() == 2 && "down"@.len() == 4 && "right"@.len() == 5 && "left"@.len()
            == 4);
        assert("down"@ != "left"@) by {
            assert("down"@[0] == 'd');
            assert("left"@[0] == 'l');
        }
        assert("up"@ != "down"@ && "up"@ != "right"@ && "up"@ != "left"@ && "down"@ != "right"@
            && "right"@ != "left"@);
    }
    if str_eq(name, "up") {
        Some(ScrollDirection::Up)
    } else if str_eq(name, "down") {
        Some(ScrollDirection::Down)
    } else if str_eq(name, "right") {
        Some(ScrollDirection::Right)
    } else if str_eq(name, "left") {
        Some(ScrollDirection::Left)
    } else {
        None
    }
}

} // verus!
