//! The listener supervisor: "start once, run forever" semantics around a
//! platform raw-event source, combined with the callback registry.
//!
//! The supervisor starts the raw source lazily, on the first `hook`, and
//! never a second time once it is listening.  Opening the raw channel and
//! pumping it are the platform's business, behind [`RawEventSource`];
//! every decision — when to start, what to hand out, what to undo on a
//! failed start — is made here.

use vstd::prelude::*;
use vstd::string::StringExecFns;

use crate::common::{CallbackId, EventCallback, MouseEvent};
use crate::error::Error;
use crate::registry::{id_space_exhausted_message, CallbackRegistry, Entry};

verus! {

/// A platform raw-event source: whatever opens the OS's raw input channel
/// and spawns the threads that pump it.
///
/// `start_count` is the abstract number of start attempts made so far;
/// `start` must perform exactly one.  The dispatch loop on the listening
/// side is driven from outside, so this trait carries nothing else.
pub trait RawEventSource: Sized {
    /// How many times this source has been asked to start.
    ///
    /// The default stands only so that implementors outside the verifier
    /// need not spell out ghost state; no verified implementation can
    /// keep it, since `start` must increase the count.
    open spec fn start_count(&self) -> nat {
        0
    }

    /// Opens the raw input channel and begins delivering records.
    ///
    /// May fail — most commonly for want of privilege — in which case
    /// nothing is delivered and the caller may try again later.
    fn start(&mut self) -> (r: Result<(), Error>)
        ensures
            final(self).start_count() == old(self).start_count() + 1;
}

/// A raw-event source double that only counts its start attempts, and can
/// be told to refuse them: the probe for startup-idempotence scenarios.
pub struct CountingRawSource {
    /// Start attempts so far (saturating; the ghost count is exact).
    pub starts: u64,
    /// Whether this source refuses to start.
    pub deny: bool,
    /// The exact number of start attempts, kept in ghost state so that it
    /// cannot saturate.
    pub count: Ghost<nat>,
}

impl CountingRawSource {
    /// A fresh source; `deny` picks whether every start is refused.
    pub fn new(deny: bool) -> (r: Self)
        ensures
            r.starts == 0,
            r.deny == deny,
            r.start_count() == 0,
    {
        CountingRawSource { starts: 0, deny, count: Ghost(0nat) }
    }
}

impl RawEventSource for CountingRawSource {
    open spec fn start_count(&self) -> nat {
        self.count@
    }

    fn start(&mut self) -> (r: Result<(), Error>)
        ensures
            final(self).deny == old(self).deny,
            old(self).starts < u64::MAX ==> final(self).starts == old(self).starts + 1,
            (r is Ok) == !old(self).deny,
            old(self).deny ==> r == Err::<(), Error>(Error::PermissionDenied),
    {
        self.count = Ghost(self.count@ + 1);
        if self.starts < u64::MAX {
            self.starts = self.starts + 1;
        }
        if self.deny {
            Err(Error::PermissionDenied)
        } else {
            Ok(())
        }
    }
}

/// The supervisor: a raw-event source, the callback registry, and the
/// "is listening" flag that makes startup lazy and one-shot.
pub struct ListenerSupervisor<S, F> {
    source: S,
    registry: CallbackRegistry<F>,
    listening: bool,
}

impl<S: RawEventSource, F: EventCallback> ListenerSupervisor<S, F> {
    /// The raw-event source as the contracts see it.
    pub closed spec fn source(&self) -> S {
        self.source
    }

    /// The registry as the contracts see it.
    pub closed spec fn registry(&self) -> CallbackRegistry<F> {
        self.registry
    }

    /// Whether the background listener has been started.
    pub closed spec fn listening(&self) -> bool {
        self.listening
    }

    /// The registered entries, in registration order.
    pub open spec fn entries(&self) -> Seq<Entry<F>> {
        self.registry().entries()
    }

    /// The id the next successful `hook` returns.
    pub open spec fn counter(&self) -> CallbackId {
        self.registry().counter()
    }

    /// Whether `id` is registered at the moment.
    pub open spec fn contains_id(&self, id: CallbackId) -> bool {
        self.registry().contains_id(id)
    }

    /// Well-formedness, inherited from the registry.
    pub open spec fn wf(&self) -> bool {
        self.registry().wf()
    }

    /// What a `hook` call does: everything `hook` promises, as one relation
    /// between the state before, the state after, and the result.
    pub open spec fn hook_post(pre: Self, post: Self, callback: F, r: Result<
        CallbackId,
        Error,
    >) -> bool {
        &&& (pre.counter() == CallbackId::MAX ==> {
            // the id space is exhausted: refuse, with no side effect
            &&& post == pre
            &&& (r matches Err(e) && e matches Error::CustomError(m) && m@
                == id_space_exhausted_message())
        })
        &&& (pre.counter() < CallbackId::MAX ==> {
            // the listener is started lazily, and never a second time
            &&& (pre.listening() ==> post.source() == pre.source() && r is Ok)
            &&& (!pre.listening() ==> post.source().start_count() == pre.source().start_count()
                + 1)
            &&& (r matches Ok(id) ==> {
                &&& id == pre.counter()
                &&& !pre.contains_id(id)
                &&& post.entries() == pre.entries().push((Entry { id, callback }))
                &&& post.counter() == pre.counter() + 1
                &&& post.listening()
            })
            &&& (r is Err ==> {
                // the raw source refused to start: roll back to not started
                &&& !pre.listening()
                &&& !post.listening()
                &&& post.entries() == pre.entries()
                &&& post.counter() == pre.counter()
            })
        })
    }

    /// What an `unhook` call does.
    pub open spec fn unhook_post(pre: Self, post: Self, id: CallbackId, r: Result<
        (),
        Error,
    >) -> bool {
        &&& post.listening() == pre.listening()
        &&& post.source() == pre.source()
        &&& post.counter() == pre.counter()
        &&& (pre.contains_id(id) ==> {
            &&& r == Ok::<(), Error>(())
            &&& post.entries() == pre.entries().remove(pre.registry().index_of_id(id))
            &&& !post.contains_id(id)
        })
        &&& (!pre.contains_id(id) ==> {
            &&& r == Err::<(), Error>(Error::UnhookFailed)
            &&& post == pre
        })
    }

    /// What an `unhook_all` call does.
    pub open spec fn unhook_all_post(pre: Self, post: Self, r: Result<(), Error>) -> bool {
        &&& post.listening() == pre.listening()
        &&& post.source() == pre.source()
        &&& post.counter() == pre.counter()
        &&& post.entries() == Seq::<Entry<F>>::empty()
        &&& r == Ok::<(), Error>(())
    }

    /// What dispatching one event does: every registered callback is
    /// invoked with it exactly once, and nothing else moves.
    pub open spec fn dispatch_post(pre: Self, post: Self, event: MouseEvent) -> bool {
        &&& post.listening() == pre.listening()
        &&& post.source() == pre.source()
        &&& post.counter() == pre.counter()
        &&& post.entries().len() == pre.entries().len()
        &&& forall|i: int|
            0 <= i < pre.entries().len() ==> {
                &&& (#[trigger] post.entries()[i]).id == pre.entries()[i].id
                &&& post.entries()[i].callback.log() == pre.entries()[i].callback.log().push(
                    event,
                )
            }
    }

    /// A supervisor that has not started listening and holds no callbacks.
    pub fn new(source: S) -> (r: Self)
        ensures
            r.wf(),
            r.source() == source,
            r.entries() == Seq::<Entry<F>>::empty(),
            r.counter() == 0,
            !r.listening(),
    {
        ListenerSupervisor { source, registry: CallbackRegistry::new(), listening: false }
    }

    /// Registers `callback`, starting the raw source first if this is the
    /// first hook; returns the fresh id.
    pub fn hook(&mut self, callback: F) -> (r: Result<CallbackId, Error>)
        requires
            old(self).wf(),
        ensures
            final(self).wf(),
            Self::hook_post(*old(self), *final(self), callback, r),
    {
        if self.registry.counter_value() == CallbackId::MAX {
            return Err(Error::CustomError(String::from_str("callback id space exhausted")));
        }
        if !self.listening {
            match self.source.start() {
                Ok(()) => {
                    self.listening = true;
                },
                Err(e) => {
                    return Err(e);
                },
            }
        }
        match self.registry.register(callback) {
            Ok(id) => Ok(id),
            Err(e) => Err(e),
        }
    }

    /// Removes the callback registered under `id`; fails, changing
    /// nothing, when `id` is not registered.
    pub fn unhook(&mut self, id: CallbackId) -> (r: Result<(), Error>)
        requires
            old(self).wf(),
        ensures
            final(self).wf(),
            Self::unhook_post(*old(self), *final(self), id, r),
    {
        self.registry.remove(id)
    }

    /// Removes every callback; always succeeds.
    pub fn unhook_all(&mut self) -> (r: Result<(), Error>)
        requires
            old(self).wf(),
        ensures
            final(self).wf(),
            Self::unhook_all_post(*old(self), *final(self), r),
    {
        self.registry.clear();
        Ok(())
    }

    /// Hands one normalized event to every registered callback.
    pub fn dispatch_event(&mut self, event: &MouseEvent)
        requires
            old(self).wf(),
        ensures
            final(self).wf(),
            Self::dispatch_post(*old(self), *final(self), *event),
    {
        self.registry.dispatch(event);
    }

    /// How many callbacks are registered.
    pub fn callback_count(&self) -> (r: usize)
        ensures
            r == self.entries().len(),
    {
        self.registry.len()
    }

    /// Whether the background listener has been started, for callers.
    pub fn is_listening(&self) -> (r: bool)
        ensures
            r == self.listening(),
    {
        self.listening
    }

    /// A shared borrow of the raw source, for inspection.
    pub fn raw_source(&self) -> (r: &S)
        ensures
            *r == self.source(),
    {
        &self.source
    }

    /// A shared borrow of the entry at position `i`, for inspection.
    pub fn entry_at(&self, i: usize) -> (r: &Entry<F>)
        requires
            i < self.entries().len(),
        ensures
            *r == self.entries()[i as int],
    {
        self.registry.entry_at(i)
    }
}

} // verus!
