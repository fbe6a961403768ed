use vstd::prelude::*;

use crate::error::Error;

verus! {

/// The kinds of hardware-backed resource.
#[derive(Clone, Copy, Debug, PartialEq, Eq, Structural)]
pub enum ResourceKind {
    Context,
    ProtectionDomain,
    MemoryRegion,
    MemoryWindow,
    CompChannel,
    CompletionQueue,
    QueuePair,
    AddressHandle,
    SharedReceiveQueue,
    DeviceMemory,
}

/// One resource: its raw handle, the resources it holds strong references
/// to, and the number of strong references that its users hold.
pub struct Entry {
    pub kind: ResourceKind,
    pub handle: u64,
    pub deps: Vec<usize>,
    pub strong: u64,
    pub alive: bool,
}

/// The ownership graph of all resources. A resource depends only on
/// resources created before it, and is destroyed exactly once: when its
/// last strong reference is gone and no live resource depends on it.
pub struct ResourceTable {
    entries: Vec<Entry>,
}

impl View for ResourceTable {
    type V = Seq<Entry>;

    closed spec fn view(&self) -> Seq<Entry> {
        self.entries@
    }
}

/// `d` is one of the dependencies of `e`.
pub open spec fn depends_on(e: Entry, d: int) -> bool {
    exists|k: int| 0 <= k < e.deps@.len() && e.deps@[k] == d
}

/// `j` is one of the entries of `s`.
pub open spec fn lists(s: Seq<usize>, j: int) -> bool {
    exists|a: int| 0 <= a < s.len() && s[a] as int == j
}

/// Some live resource depends on `d`.
pub open spec fn has_live_dependent(es: Seq<Entry>, d: int) -> bool {
    exists|j: int| 0 <= j < es.len() && #[trigger] es[j].alive && depends_on(es[j], d)
}

/// Each resource was made only of what existed before it, and a live one
/// depends on live resources alone.
pub open spec fn graph_wf(es: Seq<Entry>) -> bool {
    forall|i: int, k: int|
        0 <= i < es.len() && 0 <= k < es[i].deps@.len() ==> {
            &&& #[trigger] es[i].deps@[k] < i
            &&& es[i].alive ==> es[es[i].deps@[k] as int].alive
        }
}

/// Every live resource is still wanted: a user holds a strong reference to
/// it, or a live resource depends on it.
pub open spec fn no_garbage(es: Seq<Entry>) -> bool {
    forall|j: int|
        0 <= j < es.len() && #[trigger] es[j].alive ==> es[j].strong > 0 || has_live_dependent(es, j)
}

/// `new` is `old` with one more resource: of `kind`, with `handle`, made of
/// `deps`, held by one strong reference.
pub open spec fn appended(old: Seq<Entry>, new: Seq<Entry>, kind: ResourceKind, handle: u64, deps: Seq<usize>) -> bool {
    &&& new.len() == old.len() + 1
    &&& forall|j: int| 0 <= j < old.len() ==> new[j] == old[j]
    &&& new[old.len() as int].kind == kind
    &&& new[old.len() as int].handle == handle
    &&& new[old.len() as int].deps@ == deps
    &&& new[old.len() as int].strong == 1
    &&& new[old.len() as int].alive
}

/// Only liveness and counts may change; what a resource is and what it
/// depends on stay fixed.
pub open spec fn same_shape(a: Seq<Entry>, b: Seq<Entry>) -> bool {
    &&& a.len() == b.len()
    &&& forall|j: int|
        0 <= j < a.len() ==> {
            &&& (#[trigger] b[j]).kind == a[j].kind
            &&& b[j].handle == a[j].handle
            &&& b[j].deps@ == a[j].deps@
        }
}

impl ResourceTable {
    /// Dependencies are safe and nothing live is left unreferenced.
    pub open spec fn wf(&self) -> bool {
        graph_wf(self@) && no_garbage(self@)
    }

    /// `id` names a live resource.
    pub open spec fn is_alive(&self, id: int) -> bool {
        0 <= id < self@.len() && self@[id].alive
    }

    /// An empty graph.
    pub fn new() -> (r: Self)
        ensures
            r.wf(),
            r@.len() == 0,
    {
        ResourceTable { entries: Vec::new() }
    }

    /// Adds a resource that holds a strong reference to each of `deps`,
    /// which must be live. The caller holds the one strong reference to it.
    pub fn create(&mut self, kind: ResourceKind, handle: u64, deps: Vec<usize>) -> (id: usize)
        requires
            old(self).wf(),
            forall|k: int| 0 <= k < deps@.len() ==> old(self).is_alive(#[trigger] deps@[k] as int),
        ensures
            final(self).wf(),
            id == old(self)@.len(),
            final(self)@.len() == old(self)@.len() + 1,
            forall|j: int| 0 <= j < old(self)@.len() ==> final(self)@[j] == old(self)@[j],
            final(self)@[id as int].kind == kind,
            final(self)@[id as int].handle == handle,
            final(self)@[id as int].deps@ == deps@,
            final(self)@[id as int].strong == 1,
            final(self)@[id as int].alive,
    {
        let id = self.entries.len();
        let ghost d = deps@;
        self.entries.push(Entry { kind, handle, deps, strong: 1, alive: true });
        proof {
            assert forall|i: int, k: int|
                0 <= i < self@.len() && 0 <= k < self@[i].deps@.len() implies {
                &&& #[trigger] self@[i].deps@[k] < i
                &&& self@[i].alive ==> self@[self@[i].deps@[k] as int].alive
            } by {
                if i == id {
                    assert(self@[i].deps@ == d);
                    assert(old(self).is_alive(d[k] as int));
                } else {
                    assert(self@[i] == old(self)@[i]);
                }
            }
            assert forall|j: int|
                0 <= j < self@.len() && #[trigger] self@[j].alive implies self@[j].strong > 0
                    || has_live_dependent(self@, j) by {
                if j < id && old(self)@[j].strong == 0 {
                    assert(self@[j] == old(self)@[j]);
                    assert(has_live_dependent(old(self)@, j));
                    let w = choose|w: int| 0 <= w < old(self)@.len() && #[trigger] old(self)@[w].alive && depends_on(old(self)@[w], j);
                    assert(self@[w] == old(self)@[w]);
                    assert(self@[w].alive && depends_on(self@[w], j));
                }
            }
        }
        id
    }

    /// Adds the resource that a creating call returned, or hands its error
    /// back and leaves the graph as it was.
    pub fn adopt(&mut self, kind: ResourceKind, created: Result<u64, Error>, deps: Vec<usize>) -> (r:
        Result<usize, Error>)
        requires
            old(self).wf(),
            forall|k: int| 0 <= k < deps@.len() ==> old(self).is_alive(#[trigger] deps@[k] as int),
        ensures
            final(self).wf(),
            created matches Err(e) ==> (r == Err::<usize, Error>(e) && final(self)@ == old(self)@),
            created matches Ok(handle) ==> (r matches Ok(id) && id == old(self)@.len() && appended(
                old(self)@,
                final(self)@,
                kind,
                handle,
                deps@,
            )),
    {
        match created {
            Ok(handle) => Ok(self.create(kind, handle, deps)),
            Err(e) => Err(e),
        }
    }

    /// Takes another strong reference to a live resource.
    pub fn strong_ref(&mut self, id: usize)
        requires
            old(self).wf(),
            old(self).is_alive(id as int),
            old(self)@[id as int].strong < u64::MAX,
        ensures
            final(self).wf(),
            same_shape(old(self)@, final(self)@),
            final(self)@[id as int].strong == old(self)@[id as int].strong + 1,
            final(self)@[id as int].alive,
            forall|j: int| 0 <= j < old(self)@.len() && j != id ==> final(self)@[j] == old(self)@[j],
    {
        let s = self.entries[id].strong;
        self.entries[id].strong = s + 1;
        proof {
            assert forall|i: int, k: int|
                0 <= i < self@.len() && 0 <= k < self@[i].deps@.len() implies {
                &&& #[trigger] self@[i].deps@[k] < i
                &&& self@[i].alive ==> self@[self@[i].deps@[k] as int].alive
            } by {
                assert(old(self)@[i].deps@[k] < i);
            }
            assert forall|j: int|
                0 <= j < self@.len() && #[trigger] self@[j].alive implies self@[j].strong > 0
                    || has_live_dependent(self@, j) by {
                if j != id && self@[j].strong == 0 {
                    assert(has_live_dependent(old(self)@, j));
                    let w = choose|w: int| 0 <= w < old(self)@.len() && #[trigger] old(self)@[w].alive && depends_on(old(self)@[w], j);
                    assert(self@[w].alive && self@[w].deps@ == old(self)@[w].deps@);
                    assert(depends_on(self@[w], j));
                }
            }
        }
    }

    /// Whether some live resource holds a strong reference to `id`.
    pub fn has_dependents(&self, id: usize) -> (r: bool)
        ensures
            r == has_live_dependent(self@, id as int),
    {
        let n = self.entries.len();
        let mut j: usize = 0;
        while j < n
            invariant
                n == self@.len(),
                j <= n,
                forall|jj: int| 0 <= jj < j ==> !(#[trigger] self@[jj].alive && depends_on(self@[jj], id as int)),
            decreases n - j,
        {
            if self.entries[j].alive {
                let m = self.entries[j].deps.len();
                let mut k: usize = 0;
                while k < m
                    invariant
                        n == self@.len(),
                        j < n,
                        m == self@[j as int].deps@.len(),
                        self@[j as int].alive,
                        k <= m,
                        forall|kk: int| 0 <= kk < k ==> self@[j as int].deps@[kk] != id,
                    decreases m - k,
                {
                    if self.entries[j].deps[k] == id {
                        assert(self@[j as int].deps@[k as int] == id);
                        assert(self@[j as int].alive && depends_on(self@[j as int], id as int));
                        return true;
                    }
                    k = k + 1;
                }
            }
            j = j + 1;
        }
        false
    }

    /// Drops one strong reference to `id`. Every resource that is then
    /// unreferenced and has no live dependent is destroyed, dependents
    /// before what they depend on; the destroyed resources are returned in
    /// that order, each once, for their handles to be released.
    pub fn release(&mut self, id: usize) -> (destroyed: Vec<usize>)
        requires
            old(self).wf(),
            old(self).is_alive(id as int),
            old(self)@[id as int].strong > 0,
        ensures
            final(self).wf(),
            same_shape(old(self)@, final(self)@),
            final(self)@[id as int].strong == old(self)@[id as int].strong - 1,
            forall|j: int|
                0 <= j < old(self)@.len() && j != id ==> (#[trigger] final(self)@[j]).strong
                    == old(self)@[j].strong,
            forall|j: int| 0 <= j < old(self)@.len() ==> #[trigger] final(self)@[j].alive ==> old(self)@[j].alive,
            forall|j: int|
                0 <= j < old(self)@.len() ==> ((old(self)@[j].alive && !(
                #[trigger] final(self)@[j]).alive) <==> lists(destroyed@, j)),
            forall|a: int, b: int|
                0 <= a < b < destroyed@.len() ==> destroyed@[a] > destroyed@[b],
            forall|a: int|
                0 <= a < destroyed@.len() ==> (#[trigger] destroyed@[a]) <= id && final(self)@[destroyed@[a] as int].strong == 0,
    {
        let s = self.entries[id].strong;
        self.entries[id].strong = s - 1;
        let ghost start = self@;
        assert(graph_wf(start)) by {
            assert forall|i: int, k: int|
                0 <= i < start.len() && 0 <= k < start[i].deps@.len() implies {
                &&& #[trigger] start[i].deps@[k] < i
                &&& start[i].alive ==> start[start[i].deps@[k] as int].alive
            } by {
                assert(old(self)@[i].deps@[k] < i);
            }
        }
        assert forall|j: int|
            id < j < start.len() && #[trigger] start[j].alive implies start[j].strong > 0
                || has_live_dependent(start, j) by {
            if start[j].strong == 0 {
                assert(old(self)@[j].alive);
                assert(has_live_dependent(old(self)@, j));
                let w = choose|w: int| 0 <= w < old(self)@.len() && #[trigger] old(self)@[w].alive && depends_on(old(self)@[w], j);
                assert(start[w].alive && start[w].deps@ == old(self)@[w].deps@);
                assert(depends_on(start[w], j));
            }
        }
        let mut destroyed: Vec<usize> = Vec::new();
        let mut next: usize = id;
        let mut more = true;
        while more
            invariant
                next <= id,
                !more ==> next == 0,
                id < self@.len(),
                graph_wf(self@),
                same_shape(start, self@),
                start.len() == old(self)@.len(),
                same_shape(old(self)@, start),
                start[id as int].strong == old(self)@[id as int].strong - 1,
                forall|j: int| 0 <= j < start.len() && j != id ==> #[trigger] start[j].strong == old(self)@[j].strong,
                forall|j: int| 0 <= j < start.len() ==> #[trigger] start[j].alive == old(self)@[j].alive,
                forall|j: int| 0 <= j < start.len() ==> (#[trigger] self@[j]).strong == start[j].strong,
                forall|j: int| 0 <= j < start.len() ==> #[trigger] self@[j].alive ==> start[j].alive,
                forall|j: int|
                    0 <= j < start.len() ==> ((start[j].alive && !(#[trigger] self@[j]).alive)
                        <==> lists(destroyed@, j)),
                forall|a: int, b: int|
                    0 <= a < b < destroyed@.len() ==> destroyed@[a] > destroyed@[b],
                forall|a: int|
                    0 <= a < destroyed@.len() ==> (#[trigger] destroyed@[a]) <= id && (if more {
                        next + 1
                    } else {
                        0
                    }) <= destroyed@[a] && self@[destroyed@[a] as int].strong == 0,
                forall|j: int|
                    (if more {
                        next + 1
                    } else {
                        0
                    }) <= j < start.len() && #[trigger] self@[j].alive ==> self@[j].strong > 0
                        || has_live_dependent(self@, j),
            decreases next + if more { 1int } else { 0int },
        {
            let i = next;
            let ghost at_start = self@;
            if self.entries[i].alive && self.entries[i].strong == 0 && !self.has_dependents(i) {
                let ghost before = self@;
                let ghost dbefore = destroyed@;
                self.entries[i].alive = false;
                destroyed.push(i);
                proof {
                    assert(destroyed@ == dbefore.push(i));
                    assert forall|ii: int, k: int|
                        0 <= ii < self@.len() && 0 <= k < self@[ii].deps@.len() implies {
                        &&& #[trigger] self@[ii].deps@[k] < ii
                        &&& self@[ii].alive ==> self@[self@[ii].deps@[k] as int].alive
                    } by {
                        assert(before[ii].deps@[k] < ii);
                        if self@[ii].alive {
                            assert(before[ii].alive);
                            assert(before[before[ii].deps@[k] as int].alive);
                            if before[ii].deps@[k] == i {
                                assert(depends_on(before[ii], i as int));
                                assert(has_live_dependent(before, i as int));
                            }
                        }
                    }
                    assert forall|j: int|
                        0 <= j < start.len() implies ((start[j].alive && !(#[trigger] self@[j]).alive)
                            <==> lists(destroyed@, j)) by {
                        if j == i {
                            assert(destroyed@[destroyed@.len() - 1] as int == j);
                        } else {
                            assert(self@[j] == before[j]);
                            if lists(dbefore, j) {
                                let a = choose|a: int| 0 <= a < dbefore.len() && dbefore[a] as int == j;
                                assert(destroyed@[a] as int == j);
                            }
                            if lists(destroyed@, j) {
                                let a = choose|a: int| 0 <= a < destroyed@.len() && destroyed@[a] as int == j;
                                assert(a < dbefore.len());
                                assert(dbefore[a] as int == j);
                            }
                        }
                    }
                }
            }
            proof {
                assert forall|j: int|
                    i <= j < start.len() && #[trigger] self@[j].alive implies self@[j].strong > 0
                        || has_live_dependent(self@, j) by {
                    if j > i && self@[j].strong == 0 {
                        assert(at_start[j].alive);
                        assert(has_live_dependent(at_start, j));
                        let w = choose|w: int| 0 <= w < at_start.len() && #[trigger] at_start[w].alive && depends_on(at_start[w], j);
                        let k = choose|k: int| 0 <= k < at_start[w].deps@.len() && at_start[w].deps@[k] == j;
                        assert(at_start[w].deps@[k] < w);
                        assert(w != i);
                        assert(self@[w].alive);
                        assert(self@[w].deps@ == at_start[w].deps@);
                        assert(depends_on(self@[w], j));
                    }
                }
            }
            if i == 0 {
                more = false;
            } else {
                next = i - 1;
            }
        }
        destroyed
    }

    /// Number of resources ever created.
    pub fn len(&self) -> (r: usize)
        ensures
            r == self@.len(),
    {
        self.entries.len()
    }

    /// Whether `id` names a live resource.
    pub fn alive(&self, id: usize) -> (r: bool)
        ensures
            r == self.is_alive(id as int),
    {
        id < self.entries.len() && self.entries[id].alive
    }

    /// The raw handle of a resource.
    pub fn handle(&self, id: usize) -> (r: u64)
        requires
            id < self@.len(),
        ensures
            r == self@[id as int].handle,
    {
        self.entries[id].handle
    }

    /// The kind of a resource.
    pub fn kind(&self, id: usize) -> (r: ResourceKind)
        requires
            id < self@.len(),
        ensures
            r == self@[id as int].kind,
    {
        self.entries[id].kind
    }

    /// The strong references that users hold to a resource.
    pub fn strong_count(&self, id: usize) -> (r: u64)
        requires
            id < self@.len(),
        ensures
            r == self@[id as int].strong,
    {
        self.entries[id].strong
    }
}

/// In a well-formed graph no live resource depends on a destroyed one: a
/// resource outlives everything that depends on it.
pub proof fn lemma_dependencies_outlive(t: ResourceTable, i: int, k: int)
    requires
        t.wf(),
        t.is_alive(i),
        0 <= k < t@[i].deps@.len(),
    ensures
        t.is_alive(t@[i].deps@[k] as int),
        t@[i].deps@[k] < i,
{
}

} // verus!
