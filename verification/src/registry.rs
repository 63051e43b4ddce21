//! The callback registry: the mapping from callback ids to listener
//! callbacks, owned by the registry owner and read by the dispatch path.
//!
//! Ids are assigned by a monotonically increasing counter.  The counter is
//! never reset and removed ids are never handed out again, so an id is
//! unique for the whole life of the registry, not merely while it is
//! registered.  When the id space is exhausted, registration is rejected.

use vstd::prelude::*;
use vstd::string::StringExecFns;

use crate::common::CallbackId;
use crate::error::Error;

verus! {

/// One registered callback together with its id.
pub struct Entry<F> {
    pub id: CallbackId,
    pub callback: F,
}

/// The registry: entries in registration order, plus the id counter.
pub struct CallbackRegistry<F> {
    items: Vec<Entry<F>>,
    counter: CallbackId,
}

/// The message carried by the error that rejects a registration once
/// every id has been handed out.
pub open spec fn id_space_exhausted_message() -> Seq<char> {
    "callback id space exhausted"@
}

impl<F> CallbackRegistry<F> {
    /// The registered entries, in registration order.
    pub closed spec fn entries(&self) -> Seq<Entry<F>> {
        self.items@
    }

    /// The value the id counter holds now; the id the next successful
    /// registration returns.
    pub closed spec fn counter(&self) -> CallbackId {
        self.counter
    }

    /// Whether `id` is registered at the moment.
    pub open spec fn contains_id(&self, id: CallbackId) -> bool {
        exists|i: int| 0 <= i < self.entries().len() && self.entries()[i].id == id
    }

    /// The position of `id` among the entries; meaningful only when
    /// `contains_id(id)` holds (under `wf` the position is unique).
    pub open spec fn index_of_id(&self, id: CallbackId) -> int {
        choose|i: int| 0 <= i < self.entries().len() && self.entries()[i].id == id
    }

    /// Well-formedness: ids are pairwise distinct and below the counter.
    pub open spec fn wf(&self) -> bool {
        &&& forall|i: int, j: int|
            0 <= i < j < self.entries().len() ==> self.entries()[i].id != self.entries()[j].id
        &&& forall|i: int|
            0 <= i < self.entries().len() ==> #[trigger] self.entries()[i].id < self.counter()
    }

    /// An empty registry whose counter starts at zero.
    pub fn new() -> (r: Self)
        ensures
            r.wf(),
            r.entries() == Seq::<Entry<F>>::empty(),
            r.counter() == 0,
    {
        let r = CallbackRegistry { items: Vec::new(), counter: 0 };
        proof {
            assert(r.entries() =~= Seq::<Entry<F>>::empty());
        }
        r
    }

    /// Registers `callback` under a fresh id.
    ///
    /// Succeeds exactly as long as the id space is not exhausted; the
    /// returned id was not registered before the call.
    pub fn register(&mut self, callback: F) -> (r: Result<CallbackId, Error>)
        requires
            old(self).wf(),
        ensures
            final(self).wf(),
            old(self).counter() < CallbackId::MAX ==> {
                &&& r == Ok::<CallbackId, Error>(old(self).counter())
                &&& !old(self).contains_id(old(self).counter())
                &&& final(self).entries() == old(self).entries().push(
                    (Entry { id: old(self).counter(), callback }),
                )
                &&& final(self).counter() == old(self).counter() + 1
            },
            old(self).counter() == CallbackId::MAX ==> {
                &&& (r matches Err(e) && e matches Error::CustomError(m)
                    && m@ == id_space_exhausted_message())
                &&& *final(self) == *old(self)
            },
    {
        if self.counter == CallbackId::MAX {
            return Err(Error::CustomError(String::from_str("callback id space exhausted")));
        }
        let id = self.counter;
        self.items.push(Entry { id, callback });
        self.counter = self.counter + 1;
        proof {
            let pre = old(self).entries();
            let post = self.entries();
            assert forall|i: int| 0 <= i < post.len() implies #[trigger] post[i].id
                < self.counter() by {
                if i < pre.len() {
                    assert(pre[i].id < old(self).counter());
                    assert(post[i] == pre[i]);
                }
            }
            assert forall|i: int, j: int| 0 <= i < j < post.len() implies post[i].id
                != post[j].id by {
                if j < pre.len() {
                    assert(post[i] == pre[i] && post[j] == pre[j]);
                } else {
                    assert(post[i] == pre[i] && pre[i].id < old(self).counter());
                }
            }
        }
        Ok(id)
    }

    /// Removes the entry for `id`.
    ///
    /// Succeeds if and only if `id` is registered; on failure nothing
    /// changes, and no other entry is ever removed.
    pub fn remove(&mut self, id: CallbackId) -> (r: Result<(), Error>)
        requires
            old(self).wf(),
        ensures
            final(self).wf(),
            final(self).counter() == old(self).counter(),
            old(self).contains_id(id) ==> {
                &&& r == Ok::<(), Error>(())
                &&& final(self).entries() == old(self).entries().remove(old(self).index_of_id(id))
                &&& !final(self).contains_id(id)
            },
            !old(self).contains_id(id) ==> {
                &&& r == Err::<(), Error>(Error::UnhookFailed)
                &&& *final(self) == *old(self)
            },
    {
        let n = self.items.len();
        let mut i: usize = 0;
        while i < n
            invariant
                *self == *old(self),
                old(self).wf(),
                n == self.items.len(),
                0 <= i <= n,
                forall|j: int| 0 <= j < i ==> self.entries()[j].id != id,
            decreases n - i,
        {
            if self.items[i].id == id {
                proof {
                    assert(self.entries()[i as int].id == id);
                    assert(self.index_of_id(id) == i as int) by {
                        let k = self.index_of_id(id);
                        assert(0 <= k < self.entries().len() && self.entries()[k].id == id);
                        if k != i as int {
                            assert(false);
                        }
                    }
                }
                self.items.remove(i);
                proof {
                    assert(!self.contains_id(id)) by {
                        if self.contains_id(id) {
                            let k = choose|k: int|
                                0 <= k < self.entries().len() && self.entries()[k].id == id;
                            if k < i as int {
                                assert(old(self).entries()[k].id == id);
                            } else {
                                assert(old(self).entries()[k + 1].id == id);
                            }
                        }
                    }
                }
                return Ok(());
            }
            i = i + 1;
        }
        Err(Error::UnhookFailed)
    }

    /// Removes every entry unconditionally; the counter is kept, so ids
    /// are not reused after a clear.
    pub fn clear(&mut self)
        requires
            old(self).wf(),
        ensures
            final(self).wf(),
            final(self).entries() == Seq::<Entry<F>>::empty(),
            final(self).counter() == old(self).counter(),
    {
        self.items.clear();
        proof {
            assert(self.entries() =~= Seq::<Entry<F>>::empty());
        }
    }

    /// How many callbacks are registered.
    pub fn len(&self) -> (r: usize)
        ensures
            r == self.entries().len(),
    {
        self.items.len()
    }

    /// The value the id counter holds now.
    pub fn counter_value(&self) -> (r: CallbackId)
        ensures
            r == self.counter(),
    {
        self.counter
    }

    /// A shared borrow of the entry at position `i`, for inspection.
    pub fn entry_at(&self, i: usize) -> (r: &Entry<F>)
        requires
            i < self.entries().len(),
        ensures
            *r == self.entries()[i as int],
    {
        &self.items[i]
    }
}

impl<F: crate::common::EventCallback> CallbackRegistry<F> {
    /// Invokes every registered callback with `event`, exactly once each.
    ///
    /// No entry is added, removed, or reordered; each callback's log grows
    /// by exactly this one event.
    pub fn dispatch(&mut self, event: &crate::common::MouseEvent)
        requires
            old(self).wf(),
        ensures
            final(self).wf(),
            final(self).counter() == old(self).counter(),
            final(self).entries().len() == old(self).entries().len(),
            forall|i: int|
                0 <= i < old(self).entries().len() ==> {
                    &&& (#[trigger] final(self).entries()[i]).id == old(self).entries()[i].id
                    &&& final(self).entries()[i].callback.log() == old(self).entries()[i]
                        .callback.log().push(*event)
                },
    {
        let ghost orig = self.items@;
        let ghost orig_counter = self.counter;
        let n = self.items.len();
        let mut i: usize = 0;
        while i < n
            invariant
                n == self.items.len(),
                n == orig.len(),
                0 <= i <= n,
                self.counter == orig_counter,
                forall|j: int| 0 <= j < n ==> (#[trigger] self.items@[j]).id == orig[j].id,
                forall|j: int|
                    0 <= j < i ==> (#[trigger] self.items@[j]).callback.log()
                        == orig[j].callback.log().push(*event),
                forall|j: int| i <= j < n ==> (#[trigger] self.items@[j]).callback == orig[j].callback,
            decreases n - i,
        {
            let entry = &mut self.items[i];
            entry.callback.invoke(event);
            i = i + 1;
        }
        proof {
            assert forall|a: int, b: int|
                0 <= a < b < self.entries().len() implies self.entries()[a].id
                != self.entries()[b].id by {
                assert(old(self).entries()[a].id != old(self).entries()[b].id);
            }
            assert forall|a: int|
                0 <= a < self.entries().len() implies #[trigger] self.entries()[a].id
                < self.counter() by {
                assert(old(self).entries()[a].id < old(self).counter());
            }
        }
    }
}

} // verus!
