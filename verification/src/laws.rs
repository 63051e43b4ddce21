//! The laws of the hook subsystem, each proved from the contracts of
//! `hook`, `unhook`, `unhook_all` and the raw-event source alone.

use vstd::prelude::*;

use crate::common::{CallbackId, EventCallback};
use crate::error::Error;
use crate::supervisor::{ListenerSupervisor, RawEventSource};

verus! {

/// A successful `hook` call: the relation `hook`'s contract establishes
/// between its pre-state, its post-state, and the id it returned.
pub open spec fn hooked_ok<S: RawEventSource, F: EventCallback>(
    pre: ListenerSupervisor<S, F>,
    post: ListenerSupervisor<S, F>,
    callback: F,
    id: CallbackId,
) -> bool {
    &&& pre.wf()
    &&& post.wf()
    &&& ListenerSupervisor::hook_post(pre, post, callback, Ok(id))
}

/// Every id handed out along a run of successful `hook` calls is distinct
/// from every other, the registry grows by exactly one entry per call,
/// and every id handed out is still registered at the end of the run.
///
/// Because the registry's lock serializes concurrent `hook` calls, this
/// is also the sequential content of the concurrent scenario: however the
/// calls interleave, they form such a run.
pub proof fn lemma_hook_run_ids_distinct<S: RawEventSource, F: EventCallback>(
    states: Seq<ListenerSupervisor<S, F>>,
    callbacks: Seq<F>,
    ids: Seq<CallbackId>,
)
    requires
        states.len() == ids.len() + 1,
        callbacks.len() == ids.len(),
        forall|k: int|
            0 <= k < ids.len() ==> hooked_ok(states[k], states[k + 1], callbacks[k], ids[k]),
    ensures
        forall|k1: int, k2: int| 0 <= k1 < k2 < ids.len() ==> ids[k1] != ids[k2],
        states.last().entries().len() == states.first().entries().len() + ids.len(),
        forall|k: int| 0 <= k < ids.len() ==> states.last().contains_id(ids[k]),
    decreases ids.len(),
{
    if ids.len() == 0 {
        assert(states.last() == states.first());
    } else {
        let n = ids.len() as int;
        let init_states = states.take(n);
        let init_callbacks = callbacks.take(n - 1);
        let init_ids = ids.take(n - 1);
        assert forall|k: int|
            0 <= k < init_ids.len() implies hooked_ok(
            init_states[k],
            init_states[k + 1],
            init_callbacks[k],
            init_ids[k],
        ) by {
            assert(hooked_ok(states[k], states[k + 1], callbacks[k], ids[k]));
        }
        lemma_hook_run_ids_distinct(init_states, init_callbacks, init_ids);
        let pre = states[n - 1];
        let post = states[n];
        let last_id = ids[n - 1];
        assert(hooked_ok(pre, post, callbacks[n - 1], last_id));
        assert(init_states.last() == pre);
        assert(states.last() == post);
        assert(init_states.first() == states.first());
        // the final hook pushes one entry holding the fresh id
        assert(post.entries() == pre.entries().push(
            (crate::registry::Entry { id: last_id, callback: callbacks[n - 1] }),
        ));
        assert(post.entries()[pre.entries().len() as int].id == last_id);
        assert(post.contains_id(last_id));
        // earlier ids stay registered: their witness index survives the push
        assert forall|k: int| 0 <= k < n - 1 implies post.contains_id(ids[k]) by {
            assert(init_ids[k] == ids[k]);
            assert(pre.contains_id(ids[k]));
            let w = choose|w: int|
                0 <= w < pre.entries().len() && pre.entries()[w].id == ids[k];
            assert(post.entries()[w].id == ids[k]);
        }
        // earlier ids sit in the pre-state registry, so they are below the
        // counter, while the fresh id equals the counter
        assert forall|k1: int, k2: int| 0 <= k1 < k2 < n implies ids[k1] != ids[k2] by {
            if k2 == n - 1 {
                assert(init_ids[k1] == ids[k1]);
                assert(init_states.last().contains_id(init_ids[k1]));
                assert(pre.contains_id(ids[k1]));
                let w = choose|w: int|
                    0 <= w < pre.entries().len() && pre.entries()[w].id == ids[k1];
                assert(pre.entries()[w].id < pre.counter());
                assert(last_id == pre.counter());
            } else {
                assert(init_ids[k1] == ids[k1] && init_ids[k2] == ids[k2]);
            }
        }
    }
}

/// After `hook` returns an id, `unhook` on that id succeeds exactly once:
/// the first call removes it, and a second call on the same id fails with
/// the not-found error while changing nothing.
pub proof fn lemma_unhook_succeeds_exactly_once<S: RawEventSource, F: EventCallback>(
    s0: ListenerSupervisor<S, F>,
    s1: ListenerSupervisor<S, F>,
    s2: ListenerSupervisor<S, F>,
    s3: ListenerSupervisor<S, F>,
    callback: F,
    id: CallbackId,
    r1: Result<(), Error>,
    r2: Result<(), Error>,
)
    requires
        hooked_ok(s0, s1, callback, id),
        ListenerSupervisor::unhook_post(s1, s2, id, r1),
        ListenerSupervisor::unhook_post(s2, s3, id, r2),
    ensures
        r1 == Ok::<(), Error>(()),
        r2 == Err::<(), Error>(Error::UnhookFailed),
        s3 == s2,
{
    assert(s1.entries()[s0.entries().len() as int].id == id);
    assert(s1.contains_id(id));
}

/// After `unhook_all`, `unhook` fails with the not-found error for every
/// id whatsoever — in particular for every previously valid one — and
/// changes nothing.
pub proof fn lemma_unhook_all_invalidates_every_id<S: RawEventSource, F: EventCallback>(
    s0: ListenerSupervisor<S, F>,
    s1: ListenerSupervisor<S, F>,
    s2: ListenerSupervisor<S, F>,
    id: CallbackId,
    r1: Result<(), Error>,
    r2: Result<(), Error>,
)
    requires
        s0.wf(),
        ListenerSupervisor::unhook_all_post(s0, s1, r1),
        ListenerSupervisor::unhook_post(s1, s2, id, r2),
    ensures
        r2 == Err::<(), Error>(Error::UnhookFailed),
        s2 == s1,
{
    assert(!s1.contains_id(id));
}

/// Fan-out: with two callbacks registered, one dispatched event reaches
/// each of them exactly once — each log grows by exactly that event —
/// and after one `unhook` a further event reaches only the remaining
/// callback, again exactly once, so nothing is ever delivered twice.
pub proof fn lemma_fan_out_exactly_once<S: RawEventSource, F: EventCallback>(
    s0: ListenerSupervisor<S, F>,
    s1: ListenerSupervisor<S, F>,
    s2: ListenerSupervisor<S, F>,
    s3: ListenerSupervisor<S, F>,
    first_event: crate::common::MouseEvent,
    id: CallbackId,
    unhook_r: Result<(), Error>,
    second_event: crate::common::MouseEvent,
)
    requires
        s0.wf(),
        s0.entries().len() == 2,
        ListenerSupervisor::dispatch_post(s0, s1, first_event),
        s1.wf(),
        s1.contains_id(id),
        ListenerSupervisor::unhook_post(s1, s2, id, unhook_r),
        s2.wf(),
        ListenerSupervisor::dispatch_post(s2, s3, second_event),
    ensures
        forall|i: int|
            0 <= i < 2 ==> (#[trigger] s1.entries()[i]).callback.log() == s0.entries()[i]
                .callback.log().push(first_event),
        s3.entries().len() == 1,
        s3.entries()[0].callback.log() == s2.entries()[0].callback.log().push(second_event),
{
}

/// Once the listener is running it never stops: whichever entry point
/// runs next — a hook with either outcome, an unhook, a clear, or a
/// dispatch — the supervisor is still listening afterwards.
pub proof fn lemma_listening_never_reverts<S: RawEventSource, F: EventCallback>(
    pre: ListenerSupervisor<S, F>,
    post: ListenerSupervisor<S, F>,
    callback: F,
    id: CallbackId,
    event: crate::common::MouseEvent,
    hook_r: Result<CallbackId, Error>,
    unhook_r: Result<(), Error>,
    clear_r: Result<(), Error>,
)
    requires
        pre.listening(),
        ListenerSupervisor::hook_post(pre, post, callback, hook_r) || ListenerSupervisor::unhook_post(
            pre,
            post,
            id,
            unhook_r,
        ) || ListenerSupervisor::unhook_all_post(pre, post, clear_r)
            || ListenerSupervisor::dispatch_post(pre, post, event),
    ensures
        post.listening(),
{
}

/// Startup is idempotent: once a `hook` call has succeeded, a second
/// `hook` call — whatever its outcome — attempts no further start of the
/// raw-event source, so two hooks in succession start the underlying
/// listener at most once, and exactly once when nothing was listening.
pub proof fn lemma_listener_starts_at_most_once<S: RawEventSource, F: EventCallback>(
    s0: ListenerSupervisor<S, F>,
    s1: ListenerSupervisor<S, F>,
    s2: ListenerSupervisor<S, F>,
    cb1: F,
    cb2: F,
    id1: CallbackId,
    r2: Result<CallbackId, Error>,
)
    requires
        hooked_ok(s0, s1, cb1, id1),
        s2.wf(),
        ListenerSupervisor::hook_post(s1, s2, cb2, r2),
    ensures
        s2.source().start_count() <= s0.source().start_count() + 1,
        s0.listening() ==> s2.source().start_count() == s0.source().start_count(),
        !s0.listening() ==> s2.source().start_count() == s0.source().start_count() + 1,
{
    assert(s1.listening());
    if s1.counter() == CallbackId::MAX {
        assert(s2 == s1);
    } else {
        assert(s2.source() == s1.source());
    }
}

} // verus!
