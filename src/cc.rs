use vstd::prelude::*;

use fnv::FnvHashSet;

use crate::error::Error;
use crate::resource::{appended, ResourceKind, ResourceTable};

verus! {

/// fnv's hasher, carried as an opaque type.
#[verifier::external_type_specification]
#[verifier::external_body]
pub struct ExFnvHasher(fnv::FnvHasher);

/// std's default hasher builder, carried as an opaque type.
#[verifier::external_type_specification]
#[verifier::external_body]
#[verifier::reject_recursive_types(H)]
pub struct ExBuildHasherDefault<H>(std::hash::BuildHasherDefault<H>);

/// The keys held in a back-reference set.
pub uninterp spec fn ref_keys(s: FnvHashSet<usize>) -> Set<usize>;

/// Relies on fnv's `FnvHashSet::default`: a new set is empty.
#[verifier::external_body]
fn ref_set_new() -> (r: FnvHashSet<usize>)
    ensures
        ref_keys(r) == Set::<usize>::empty(),
        ref_keys(r).finite(),
{
    FnvHashSet::default()
}

/// Relies on `FnvHashSet::insert`: the key is added, and the result says
/// whether it was absent.
#[verifier::external_body]
fn ref_set_insert(s: &mut FnvHashSet<usize>, key: usize) -> (r: bool)
    ensures
        ref_keys(*final(s)) == ref_keys(*old(s)).insert(key),
        ref_keys(*final(s)).finite(),
        r == !ref_keys(*old(s)).contains(key),
{
    s.insert(key)
}

/// Relies on `FnvHashSet::remove`: the key is taken out, and the result says
/// whether it was present.
#[verifier::external_body]
fn ref_set_remove(s: &mut FnvHashSet<usize>, key: usize) -> (r: bool)
    ensures
        ref_keys(*final(s)) == ref_keys(*old(s)).remove(key),
        ref_keys(*final(s)).finite(),
        r == ref_keys(*old(s)).contains(key),
{
    s.remove(&key)
}

/// Relies on `FnvHashSet::len`: the number of keys.
#[verifier::external_body]
fn ref_set_len(s: &FnvHashSet<usize>) -> (r: usize)
    ensures
        r == ref_keys(*s).len(),
{
    s.len()
}

/// Why a wait on a completion channel yields no queue.
#[derive(Clone, Copy, Debug, PartialEq, Eq, Structural)]
pub enum EventError {
    /// The wait failed with this code.
    Wait(i32),
    /// The queue that the event names has been destroyed.
    QueueDestroyed,
}

/// A completion channel: one notification descriptor, and the set of
/// completion queues bound to it. The set holds queue keys only, so it never
/// keeps a queue alive; a key is added when a queue binds the channel and
/// removed when that queue is destroyed.
pub struct CompChannel {
    key: usize,
    cq_refs: FnvHashSet<usize>,
}

impl CompChannel {
    /// The key of this channel.
    pub closed spec fn spec_key(&self) -> usize {
        self.key
    }

    /// The keys of the completion queues bound to this channel.
    pub closed spec fn bound(&self) -> Set<usize> {
        ref_keys(self.cq_refs)
    }

    /// The set of bound queues is finite.
    pub closed spec fn wf(&self) -> bool {
        self.bound().finite()
    }

    /// The channel that the creating call returned, entered in `graph` with
    /// a strong reference to its context `ctx`; its key is its resource id
    /// and no queue is bound to it. A failed creation hands its error back.
    pub fn create(graph: &mut ResourceTable, ctx: usize, created: Result<u64, Error>) -> (r: Result<
        CompChannel,
        Error,
    >)
        requires
            old(graph).wf(),
            old(graph).is_alive(ctx as int),
        ensures
            final(graph).wf(),
            created matches Err(e) ==> (r matches Err(e2) && e2 == e && final(graph)@ == old(graph)@),
            created matches Ok(h) ==> (r matches Ok(cc) && cc.wf() && cc.spec_key() == old(graph)@.len()
                && cc.bound() == Set::<usize>::empty() && appended(
                old(graph)@,
                final(graph)@,
                ResourceKind::CompChannel,
                h,
                seq![ctx],
            )),
    {
        let mut deps: Vec<usize> = Vec::new();
        deps.push(ctx);
        proof {
            assert(deps@ == seq![ctx]);
        }
        match graph.adopt(ResourceKind::CompChannel, created, deps) {
            Ok(key) => Ok(CompChannel { key, cq_refs: ref_set_new() }),
            Err(e) => Err(e),
        }
    }

    /// The key of this channel.
    pub fn key(&self) -> (r: usize)
        ensures
            r == self.spec_key(),
    {
        self.key
    }

    /// Records that the queue `cq` is bound to this channel.
    pub fn add_cq_ref(&mut self, cq: usize) -> (r: bool)
        ensures
            final(self).wf(),
            final(self).spec_key() == old(self).spec_key(),
            final(self).bound() == old(self).bound().insert(cq),
            r == !old(self).bound().contains(cq),
    {
        ref_set_insert(&mut self.cq_refs, cq)
    }

    /// Forgets the queue `cq`; says whether it was bound.
    pub fn del_cq_ref(&mut self, cq: usize) -> (r: bool)
        ensures
            final(self).wf(),
            final(self).spec_key() == old(self).spec_key(),
            final(self).bound() == old(self).bound().remove(cq),
            r == old(self).bound().contains(cq),
            old(self).wf() ==> final(self).bound().len() + (if r {
                1int
            } else {
                0int
            }) == old(self).bound().len(),
    {
        let r = ref_set_remove(&mut self.cq_refs, cq);
        proof {
            if old(self).wf() {
                vstd::set::axiom_set_remove_len(old(self).bound(), cq);
            }
        }
        r
    }

    /// Whether the queue `cq` is bound to this channel.
    pub fn is_bound(&self, cq: usize) -> (r: bool)
        ensures
            r == self.bound().contains(cq),
    {
        ref_set_contains(&self.cq_refs, cq)
    }

    /// The queue that a wait on this channel delivered an event for, from
    /// the wait's outcome `ret` and the key of the queue it named. A queue
    /// that is no longer bound has been destroyed: that fails with its own
    /// error, never through the raw handle.
    pub fn wait_outcome(&self, ret: i32, cq: usize) -> (r: Result<usize, EventError>)
        ensures
            ret != 0 ==> r == Err::<usize, EventError>(EventError::Wait(ret)),
            ret == 0 && self.bound().contains(cq) ==> r == Ok::<usize, EventError>(cq),
            ret == 0 && !self.bound().contains(cq) ==> r == Err::<usize, EventError>(
                EventError::QueueDestroyed,
            ),
    {
        if ret != 0 {
            Err(EventError::Wait(ret))
        } else if self.is_bound(cq) {
            Ok(cq)
        } else {
            Err(EventError::QueueDestroyed)
        }
    }

    /// Number of queues bound to this channel.
    pub fn bound_count(&self) -> (r: usize)
        requires
            self.wf(),
        ensures
            r == self.bound().len(),
    {
        ref_set_len(&self.cq_refs)
    }
}

/// Relies on `FnvHashSet::contains`: whether the key is in the set.
#[verifier::external_body]
fn ref_set_contains(s: &FnvHashSet<usize>, key: usize) -> (r: bool)
    ensures
        r == ref_keys(*s).contains(key),
{
    s.contains(&key)
}

/// Unbinding a queue that is bound to a channel takes exactly one entry out
/// of the channel's back-reference set, and the set had that entry to lose:
/// its size never goes below zero.
pub proof fn lemma_unbind_removes_one(before: CompChannel, after: CompChannel, cq: usize)
    requires
        before.wf(),
        before.bound().contains(cq),
        after.bound() == before.bound().remove(cq),
    ensures
        before.bound().len() >= 1,
        after.bound().len() == before.bound().len() - 1,
{
    vstd::set::axiom_set_remove_len(before.bound(), cq);
}

} // verus!
