//! What an instance of the extension keeps for as long as it is loaded.
//!
//! An extension may be loaded more than once in a process, each time with an
//! environment of its own; what is kept here is kept once per instance, in the
//! slot that the host has for it. It is made on first use. Holding the
//! environment by `&mut` is all the locking there is.

use vstd::prelude::*;
use std::sync::atomic::{AtomicU64, Ordering};
use std::sync::Arc;
use crate::env::{DeferredState, Env, EnvView};
use crate::raw::{NapiRef, NodeApiDeferred};
use crate::tsfn::{ThreadsafeFunction, ThreadsafeFunctionView};

verus! {

/// The source of the instance identifiers of one process. A copy of it is
/// the same source: what one draws, the other does not draw again.
pub struct InstanceIds {
    next: Arc<AtomicU64>,
}

impl InstanceIds {
    /// A source that no instance has drawn from.
    pub fn new() -> InstanceIds {
        InstanceIds { next: Arc::new(AtomicU64::new(0)) }
    }
}

/// Uniquely identifies an instance of the module.
///
/// Since `InstanceData` is created lazily, the order of `id` may not reflect
/// the order in which instances were created.
#[derive(Copy, Clone, Debug, Eq, PartialEq, Structural)]
pub struct InstanceId(u64);

impl InstanceId {
    /// The next identifier of the process. Which one that is depends on what
    /// the other instances of the process have drawn.
    pub fn next(ids: &InstanceIds) -> InstanceId {
        InstanceId(ids.next.fetch_add(1, Ordering::SeqCst))
    }
}

/// `Arc::clone`: one more pointer to the same counter.
#[verifier::external_body]
fn share(next: &Arc<AtomicU64>) -> (shared: Arc<AtomicU64>)
    ensures
        shared == *next,
{
    Arc::clone(next)
}

impl Clone for InstanceIds {
    fn clone(&self) -> (copy: Self)
        ensures
            copy == *self,
    {
        InstanceIds { next: share(&self.next) }
    }
}

/// Wrapper for raw values to be dropped on the owning thread.
#[derive(Debug)]
pub enum DropData {
    Deferred(NodeApiDeferred),
    Ref(NapiRef),
}

impl EnvView {
    /// The environment after `data` was released in it.
    pub open spec fn release(self, data: DropData) -> EnvView {
        match data {
            DropData::Deferred(deferred) => self.abandon_deferred(deferred),
            DropData::Ref(reference) => self.release_reference(reference),
        }
    }

    /// The environment after each of `data` was released in it, first to last.
    pub open spec fn release_all(self, data: Seq<DropData>) -> EnvView
        decreases data.len(),
    {
        if data.len() == 0 {
            self
        } else {
            self.release(data[0]).release_all(data.drop_first())
        }
    }
}

impl DropData {
    /// Drop a value on the owning thread.
    ///
    /// Where the environment is still there, the value is released in it.
    /// Where it has been torn down, nothing is done: what the environment
    /// held went with it.
    pub fn drop(env: Option<&mut Env>, data: Self)
        ensures
            env matches Some(e) ==> final(e)@ == e@.release(data),
    {
        if let Some(env) = env {
            match data {
                DropData::Deferred(data) => {
                    env.abandon_deferred(data);
                },
                DropData::Ref(data) => {
                    env.delete_reference(data);
                },
            }
        }
    }
}

/// `InstanceData` holds data associated with a particular instance of a native
/// module. If a module is loaded multiple times (e.g., worker threads), this
/// data will be unique per instance.
pub struct InstanceData {
    id: InstanceId,
    /// Used to free what other threads drop in the environment that created
    /// it.
    drop_queue: ThreadsafeFunction<DropData>,
}

/// The data of an instance, in specifications.
pub struct InstanceDataView {
    pub id: InstanceId,
    pub drop_queue: ThreadsafeFunctionView<DropData>,
}

impl View for InstanceData {
    type V = InstanceDataView;

    closed spec fn view(&self) -> InstanceDataView {
        InstanceDataView { id: self.id, drop_queue: self.drop_queue@ }
    }
}

impl EnvView {
    /// The environment after the data of its instance was asked for: as it
    /// is, where the data is there; with `fresh` in the slot, where it is not.
    pub open spec fn get_or_init(self, fresh: InstanceDataView) -> EnvView {
        if self.instance_data is Some {
            self
        } else {
            EnvView { instance_data: Some(fresh), ..self }
        }
    }
}

impl InstanceDataView {
    /// The data of an instance as it is when made: the queue of drops empty
    /// and unreferenced, so that it alone does not keep the instance alive.
    pub open spec fn fresh(id: InstanceId) -> InstanceDataView {
        InstanceDataView {
            id,
            drop_queue: ThreadsafeFunctionView { pending: Seq::empty(), referenced: false },
        }
    }
}

impl InstanceData {
    /// Return the data associated with this module instance, lazily
    /// initializing if necessary.
    ///
    /// Data that is there is returned as it is. Data that is not is made
    /// fresh, with the next identifier of the process, and put in the host's
    /// slot. The environment changes in nothing else, then or later through
    /// what is returned.
    ///
    /// No additional locking is necessary because holding the environment by
    /// `&mut` ensures serialized access.
    pub fn get(cx: &mut Env) -> (data: &mut InstanceData)
        ensures
            Some(data@) == old(cx)@.get_or_init(InstanceDataView::fresh(data@.id)).instance_data,
            final(cx)@ == (EnvView { instance_data: Some(final(data)@), ..old(cx)@ }),
    {
        if cx.has_instance_data() {
            return cx.get_instance_data().unwrap();
        }
        let mut drop_queue = ThreadsafeFunction::new(cx);
        drop_queue.unref(cx);

        let data = InstanceData { id: InstanceId::next(cx.instance_ids()), drop_queue };
        cx.set_instance_data(data)
    }

    /// Helper to return a reference to the `drop_queue` field of
    /// `InstanceData`.
    ///
    /// Initializes the data of the instance as [`InstanceData::get`] does. What
    /// is done to the queue through the reference is done to the queue of the
    /// instance, and to nothing else.
    pub fn drop_queue(cx: &mut Env) -> (queue: &mut ThreadsafeFunction<DropData>)
        ensures
            final(cx)@.instance_data matches Some(kept) && {
                let data = old(cx)@.get_or_init(InstanceDataView::fresh(kept.id)).instance_data.unwrap();
                &&& queue@ == data.drop_queue
                &&& kept == (InstanceDataView { id: data.id, drop_queue: final(queue)@ })
            },
            final(cx)@ == (EnvView { instance_data: final(cx)@.instance_data, ..old(cx)@ }),
    {
        &mut InstanceData::get(cx).drop_queue
    }

    /// Unique identifier for this instance of the module.
    ///
    /// Initializes the data of the instance as [`InstanceData::get`] does.
    pub fn id(cx: &mut Env) -> (id: InstanceId)
        ensures
            final(cx)@ == old(cx)@.get_or_init(InstanceDataView::fresh(id)),
            final(cx)@.instance_data matches Some(data) && data.id == id,
    {
        InstanceData::get(cx).id
    }
}

/// What the host does on the owning thread when the queue of drops calls for
/// it: it takes what is on the queue off, oldest first, and hands each to
/// [`DropData::drop`] with the environment.
///
/// Afterwards the queue is empty and each value that was on it has been
/// released in the environment, once. An instance that never asked for its
/// data has no queue, and nothing is done.
pub fn deliver_drops(cx: &mut Env)
    ensures
        final(cx)@ == old(cx)@.drained().release_all(old(cx)@.pending_drops()),
{
    if !cx.has_instance_data() {
        return ;
    }
    let ghost mut delivered: Seq<DropData> = Seq::empty();
    loop
        invariant
            cx@.instance_data is Some,
            old(cx)@.instance_data is Some,
            delivered + cx@.pending_drops() == old(cx)@.pending_drops(),
            cx@ == old(cx)@.with_pending_drops(cx@.pending_drops()).release_all(delivered),
        ensures
            cx@ == old(cx)@.drained().release_all(old(cx)@.pending_drops()),
        decreases cx@.pending_drops().len(),
    {
        let ghost before = cx@;
        let next = InstanceData::get(cx).drop_queue.next_call();
        match next {
            Some(data) => {
                let ghost taken = cx@;
                DropData::drop(Some(&mut *cx), data);
                proof {
                    assert(before.pending_drops() == seq![data] + taken.pending_drops());
                    assert(delivered.push(data) + taken.pending_drops() =~= delivered
                        + before.pending_drops());
                    lemma_release_all_push(
                        old(cx)@.with_pending_drops(before.pending_drops()),
                        delivered,
                        data,
                    );
                    lemma_release_all_keeps_instance(
                        old(cx)@.with_pending_drops(before.pending_drops()),
                        delivered,
                    );
                    lemma_release_all_keeps_instance(
                        old(cx)@.with_pending_drops(taken.pending_drops()),
                        delivered.push(data),
                    );
                    lemma_release_all_of_other_queue(
                        old(cx)@,
                        before.pending_drops(),
                        taken.pending_drops(),
                        delivered.push(data),
                    );
                    delivered = delivered.push(data);
                }
            },
            None => {
                proof {
                    assert(cx@ == before);
                    assert(cx@.pending_drops() =~= Seq::<DropData>::empty());
                    assert(delivered =~= old(cx)@.pending_drops());
                }
                break ;
            },
        }
    }
}

impl EnvView {
    /// What is on the instance's queue of drops, oldest first; nothing, where
    /// the instance has no data yet.
    pub open spec fn pending_drops(self) -> Seq<DropData> {
        match self.instance_data {
            Some(data) => data.drop_queue.pending,
            None => Seq::empty(),
        }
    }

    /// The environment with `pending` on the instance's queue of drops in
    /// place of what is there; as it is, where the instance has no data yet.
    pub open spec fn with_pending_drops(self, pending: Seq<DropData>) -> EnvView {
        match self.instance_data {
            Some(data) => EnvView {
                instance_data: Some(
                    InstanceDataView {
                        drop_queue: ThreadsafeFunctionView { pending, ..data.drop_queue },
                        ..data
                    },
                ),
                ..self
            },
            None => self,
        }
    }

    /// The environment with the instance's queue of drops emptied.
    pub open spec fn drained(self) -> EnvView {
        self.with_pending_drops(Seq::empty())
    }
}

proof fn lemma_release_all_push(env: EnvView, data: Seq<DropData>, last: DropData)
    ensures
        env.release_all(data.push(last)) == env.release_all(data).release(last),
    decreases data.len(),
{
    if data.len() == 0 {
        assert(data.push(last).drop_first() =~= Seq::<DropData>::empty());
        assert(env.release(last).release_all(Seq::empty()) == env.release(last));
    } else {
        assert(data.push(last).drop_first() =~= data.drop_first().push(last));
        lemma_release_all_push(env.release(data[0]), data.drop_first(), last);
    }
}

proof fn lemma_release_all_keeps_instance(env: EnvView, data: Seq<DropData>)
    ensures
        env.release_all(data).instance_data == env.instance_data,
    decreases data.len(),
{
    if data.len() > 0 {
        lemma_release_all_keeps_instance(env.release(data[0]), data.drop_first());
    }
}

proof fn lemma_release_all_of_other_queue(
    env: EnvView,
    a: Seq<DropData>,
    b: Seq<DropData>,
    data: Seq<DropData>,
)
    ensures
        env.with_pending_drops(a).release_all(data).with_pending_drops(b) == env.with_pending_drops(
            b,
        ).release_all(data),
    decreases data.len(),
{
    if data.len() == 0 {
        assert(env.with_pending_drops(a).with_pending_drops(b) == env.with_pending_drops(b));
    } else {
        let first = data[0];
        assert(env.with_pending_drops(a).release(first) == env.release(first).with_pending_drops(a));
        assert(env.with_pending_drops(b).release(first) == env.release(first).with_pending_drops(b));
        lemma_release_all_of_other_queue(env.release(first), a, b, data.drop_first());
    }
}

/// Releasing values one after another gives up each promise and releases each
/// reference among them, and changes nothing else in the environment: no
/// other promise or reference, no value, no work, and nothing that the
/// instance keeps.
pub proof fn lemma_release_all(env: EnvView, data: Seq<DropData>)
    ensures
        env.release_all(data) == (EnvView {
            references: env.release_all(data).references,
            deferreds: env.release_all(data).deferreds,
            ..env
        }),
        env.release_all(data).references.len() == env.references.len(),
        env.release_all(data).deferreds.len() == env.deferreds.len(),
        forall|k: int|
            0 <= k < env.references.len() ==> #[trigger] env.release_all(data).references[k] == (
            if exists|i: int| 0 <= i < data.len() && data[i] is Ref && (#[trigger] data[i])->Ref_0.id() == k {
                None
            } else {
                env.references[k]
            }),
        forall|k: int|
            0 <= k < env.deferreds.len() ==> #[trigger] env.release_all(data).deferreds[k] == (
            if exists|i: int|
                0 <= i < data.len() && data[i] is Deferred && (#[trigger] data[i])->Deferred_0.id() == k {
                DeferredState::Abandoned
            } else {
                env.deferreds[k]
            }),
    decreases data.len(),
{
    if data.len() > 0 {
        let first = data[0];
        let rest = data.drop_first();
        let next = env.release(first);
        lemma_release_all(next, rest);
        assert forall|k: int| 0 <= k < env.references.len() implies #[trigger] env.release_all(
            data,
        ).references[k] == (if exists|i: int|
            0 <= i < data.len() && data[i] is Ref && (#[trigger] data[i])->Ref_0.id() == k {
            None
        } else {
            env.references[k]
        }) by {
            if exists|i: int| 0 <= i < rest.len() && rest[i] is Ref && (#[trigger] rest[i])->Ref_0.id() == k {
                let i = choose|i: int|
                    0 <= i < rest.len() && rest[i] is Ref && (#[trigger] rest[i])->Ref_0.id() == k;
                assert(data[i + 1] == rest[i]);
            } else if first is Ref && first->Ref_0.id() == k {
                assert(data[0] == first);
            } else {
                assert forall|i: int| 0 <= i < data.len() && data[i] is Ref implies (
                #[trigger] data[i])->Ref_0.id() != k by {
                    if i > 0 {
                        assert(data[i] == rest[i - 1]);
                    }
                }
            }
        }
        assert forall|k: int| 0 <= k < env.deferreds.len() implies #[trigger] env.release_all(
            data,
        ).deferreds[k] == (if exists|i: int|
            0 <= i < data.len() && data[i] is Deferred && (#[trigger] data[i])->Deferred_0.id() == k {
            DeferredState::Abandoned
        } else {
            env.deferreds[k]
        }) by {
            if exists|i: int|
                0 <= i < rest.len() && rest[i] is Deferred && (#[trigger] rest[i])->Deferred_0.id() == k {
                let i = choose|i: int|
                    0 <= i < rest.len() && rest[i] is Deferred && (
                    #[trigger] rest[i])->Deferred_0.id() == k;
                assert(data[i + 1] == rest[i]);
            } else if first is Deferred && first->Deferred_0.id() == k {
                assert(data[0] == first);
            } else {
                assert forall|i: int| 0 <= i < data.len() && data[i] is Deferred implies (
                #[trigger] data[i])->Deferred_0.id() != k by {
                    if i > 0 {
                        assert(data[i] == rest[i - 1]);
                    }
                }
            }
        }
    }
}

/// Asking for the data of an instance a second time changes nothing: what the
/// first asking found or made is what the second finds, identifier and queue.
pub proof fn lemma_get_or_init_idempotent(
    env: EnvView,
    first: InstanceDataView,
    second: InstanceDataView,
)
    ensures
        env.get_or_init(first).get_or_init(second) == env.get_or_init(first),
        env.get_or_init(first).instance_data is Some,
        env.instance_data is Some ==> env.get_or_init(first) == env,
{
}

} // verus!
