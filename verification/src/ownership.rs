//! Who owns what, and in what order things go. Every native object is
//! entered into a table together with the objects it refers to. An object
//! is destroyed once its creator has let go of it and nothing alive refers
//! to it any more; destroying it may free the objects it referred to in
//! turn.

use vstd::prelude::*;

verus! {

/// The kinds of native object.
#[derive(Clone, Copy, Debug, PartialEq, Eq, Hash, Structural)]
pub enum ResourceKind {
    Instance,
    Surface,
    Device,
    Swapchain,
    Image,
    ImageView,
    Buffer,
    Sampler,
    ShaderModule,
    DescriptorSetLayout,
    DescriptorPool,
    PipelineLayout,
    RenderPass,
    Framebuffer,
    Pipeline,
    CommandPool,
    CommandBuffer,
    Semaphore,
    Fence,
}

/// One object of the table.
#[derive(Debug)]
pub struct Resource {
    pub kind: ResourceKind,
    pub handle: u64,
    /// Whether destroying the object destroys the native handle. An image
    /// that a swapchain lends does not own its handle.
    pub owns_handle: bool,
    /// The objects that this one refers to and keeps alive, by index.
    pub parents: Vec<usize>,
    /// Whether the creator still holds the object.
    pub held: bool,
    /// Whether the object has not been destroyed.
    pub alive: bool,
}

/// What a [`Resource`] holds.
pub struct ResourceSpec {
    pub kind: ResourceKind,
    pub handle: u64,
    pub owns_handle: bool,
    pub parents: Seq<usize>,
    pub held: bool,
    pub alive: bool,
}

impl View for Resource {
    type V = ResourceSpec;

    open spec fn view(&self) -> ResourceSpec {
        ResourceSpec {
            kind: self.kind,
            handle: self.handle,
            owns_handle: self.owns_handle,
            parents: self.parents@,
            held: self.held,
            alive: self.alive,
        }
    }
}

/// A native destroy call that is due.
#[derive(Clone, Copy, Debug, PartialEq, Eq, Structural)]
pub struct DestroyCall {
    pub index: usize,
    pub kind: ResourceKind,
    pub handle: u64,
}

/// Why an object could not be entered.
#[derive(Clone, Copy, Debug, PartialEq, Eq, Structural)]
pub enum OwnershipError {
    /// The object refers to an object that is not in the table or has been
    /// destroyed.
    DeadParent { parent: usize },
}

/// The table of all objects, in the order of their creation.
#[derive(Debug)]
pub struct ResourceTable {
    entries: Vec<Resource>,
}

impl View for ResourceTable {
    type V = Seq<ResourceSpec>;

    closed spec fn view(&self) -> Seq<ResourceSpec> {
        Seq::new(self.entries@.len(), |i: int| self.entries@[i]@)
    }
}

/// The object at `j` refers to the object at `i`.
pub open spec fn refers_to(t: Seq<ResourceSpec>, j: int, i: int) -> bool {
    exists|k: int| 0 <= k < t[j].parents.len() && #[trigger] t[j].parents[k] == i
}

/// Some object that is alive refers to the object at `i`.
pub open spec fn has_live_dependent(t: Seq<ResourceSpec>, i: int) -> bool {
    exists|j: int| i < j < t.len() && (#[trigger] t[j]).alive && refers_to(t, j, i)
}

/// Every object was created after the objects it refers to.
pub open spec fn ordered(t: Seq<ResourceSpec>) -> bool {
    forall|j: int, k: int|
        0 <= j < t.len() && 0 <= k < t[j].parents.len() ==> #[trigger] t[j].parents[k] < j
}

/// The object that reference `k` of the object at `j` names is alive.
pub open spec fn parent_alive(t: Seq<ResourceSpec>, j: int, k: int) -> bool {
    t[t[j].parents[k] as int].alive
}

/// No object that is alive refers to an object that was destroyed.
pub open spec fn no_dangling(t: Seq<ResourceSpec>) -> bool {
    forall|j: int, k: int|
        0 <= j < t.len() && t[j].alive && 0 <= k < t[j].parents.len() ==> #[trigger] parent_alive(
            t,
            j,
            k,
        )
}

/// From position `from` on, every object that is alive is held by its
/// creator or referred to by an object that is alive.
pub open spec fn settled_from(t: Seq<ResourceSpec>, from: int) -> bool {
    forall|i: int|
        from <= i < t.len() && (#[trigger] t[i]).alive && !t[i].held ==> has_live_dependent(t, i)
}

/// What holds of a table between calls.
pub open spec fn wf(t: Seq<ResourceSpec>) -> bool {
    &&& ordered(t)
    &&& no_dangling(t)
    &&& settled_from(t, 0)
    &&& forall|i: int| 0 <= i < t.len() && (#[trigger] t[i]).held ==> t[i].alive
}

/// `after` is `before` with some objects destroyed and, perhaps, the object
/// at `released` let go of; nothing else has changed.
pub open spec fn only_destroys(before: Seq<ResourceSpec>, after: Seq<ResourceSpec>, released: int) -> bool {
    &&& after.len() == before.len()
    &&& forall|i: int|
        0 <= i < before.len() ==> {
            &&& (#[trigger] after[i]).kind == before[i].kind
            &&& after[i].handle == before[i].handle
            &&& after[i].owns_handle == before[i].owns_handle
            &&& after[i].parents == before[i].parents
            &&& after[i].held == (before[i].held && i != released)
            &&& after[i].alive ==> before[i].alive
        }
}

/// The object at `i` was destroyed between `before` and `after`.
pub open spec fn destroyed(before: Seq<ResourceSpec>, after: Seq<ResourceSpec>, i: int) -> bool {
    0 <= i < before.len() && before[i].alive && !after[i].alive
}

/// `calls` are the destroy calls that are due after the step from `before`
/// to `after`: one for each object that was destroyed and owns its handle,
/// in the order from the youngest object to the oldest, so that every
/// object goes before the objects it refers to.
pub open spec fn calls_match(
    before: Seq<ResourceSpec>,
    after: Seq<ResourceSpec>,
    calls: Seq<DestroyCall>,
) -> bool {
    &&& forall|c: int|
        0 <= c < calls.len() ==> {
            &&& destroyed(before, after, (#[trigger] calls[c]).index as int)
            &&& before[calls[c].index as int].owns_handle
            &&& calls[c].kind == before[calls[c].index as int].kind
            &&& calls[c].handle == before[calls[c].index as int].handle
        }
    &&& forall|a: int, b: int|
        0 <= a < b < calls.len() ==> (#[trigger] calls[a]).index > (#[trigger] calls[b]).index
    &&& forall|i: int|
        destroyed(before, after, i) && before[i].owns_handle ==> exists|c: int|
            0 <= c < calls.len() && (#[trigger] calls[c]).index == i
}

impl ResourceTable {
    /// An empty table.
    pub fn new() -> (r: ResourceTable)
        ensures
            r@.len() == 0,
            wf(r@),
    {
        ResourceTable { entries: Vec::new() }
    }

    /// The number of objects that were ever entered.
    pub fn len(&self) -> (r: usize)
        ensures
            r == self@.len(),
    {
        self.entries.len()
    }

    /// Whether the object at `index` has not been destroyed.
    pub fn is_alive(&self, index: usize) -> (r: bool)
        ensures
            r == (index < self@.len() && self@[index as int].alive),
    {
        index < self.entries.len() && self.entries[index].alive
    }

    /// Whether the creator of the object at `index` still holds it.
    pub fn is_held(&self, index: usize) -> (r: bool)
        ensures
            r == (index < self@.len() && self@[index as int].held),
    {
        index < self.entries.len() && self.entries[index].held
    }

    /// Whether some object that is alive refers to the object at `index`.
    #[verifier::loop_isolation(false)]
    pub fn is_referred_to(&self, index: usize) -> (r: bool)
        requires
            index < self@.len(),
        ensures
            r == has_live_dependent(self@, index as int),
    {
        let n = self.entries.len();
        let mut j: usize = index + 1;
        while j < n
            invariant
                index < j <= self.entries@.len(),
                forall|m: int|
                    index < m < j ==> !((#[trigger] self@[m]).alive && refers_to(
                        self@,
                        m,
                        index as int,
                    )),
            decreases n - j,
        {
            assert(self@[j as int] == self.entries@[j as int]@);
            if self.entries[j].alive {
                let parents = &self.entries[j].parents;
                let mut k: usize = 0;
                while k < parents.len()
                    invariant
                        k <= parents@.len(),
                        parents@ == self@[j as int].parents,
                        forall|m: int| 0 <= m < k ==> parents@[m] != index,
                    decreases parents.len() - k,
                {
                    if parents[k] == index {
                        assert(self@[j as int].parents[k as int] == index);
                        assert(refers_to(self@, j as int, index as int));
                        assert(self@[j as int].alive);
                        return true;
                    }
                    k = k + 1;
                }
            }
            j = j + 1;
        }
        false
    }

    /// Enters a new object that refers to `parents`, held by its creator.
    /// Fails, and changes nothing, where one of `parents` is not in the
    /// table or has been destroyed; the first such is reported.
    #[verifier::loop_isolation(false)]
    pub fn create(&mut self, kind: ResourceKind, handle: u64, owns_handle: bool, parents: Vec<usize>) -> (r:
        Result<usize, OwnershipError>)
        requires
            wf(old(self)@),
        ensures
            wf(final(self)@),
            match r {
                Ok(index) => {
                    &&& index == old(self)@.len()
                    &&& forall|k: int|
                        0 <= k < parents@.len() ==> parents@[k] < old(self)@.len() && old(
                            self,
                        )@[parents@[k] as int].alive
                    &&& final(self)@ == old(self)@.push(
                        ResourceSpec {
                            kind,
                            handle,
                            owns_handle,
                            parents: parents@,
                            held: true,
                            alive: true,
                        },
                    )
                },
                Err(OwnershipError::DeadParent { parent }) => {
                    &&& final(self)@ == old(self)@
                    &&& exists|k: int|
                        {
                            &&& 0 <= k < parents@.len()
                            &&& parents@[k] == parent
                            &&& !(parent < old(self)@.len() && old(self)@[parent as int].alive)
                            &&& forall|m: int|
                                0 <= m < k ==> parents@[m] < old(self)@.len() && old(
                                    self,
                                )@[parents@[m] as int].alive
                        }
                },
            },
    {
        let mut k: usize = 0;
        while k < parents.len()
            invariant
                k <= parents@.len(),
                self@ == old(self)@,
                forall|m: int|
                    0 <= m < k ==> parents@[m] < self@.len() && self@[parents@[m] as int].alive,
            decreases parents.len() - k,
        {
            let parent = parents[k];
            if !self.is_alive(parent) {
                return Err(OwnershipError::DeadParent { parent });
            }
            k = k + 1;
        }
        let index = self.entries.len();
        let ghost before = self@;
        let ghost entry = ResourceSpec {
            kind,
            handle,
            owns_handle,
            parents: parents@,
            held: true,
            alive: true,
        };
        self.entries.push(Resource { kind, handle, owns_handle, parents, held: true, alive: true });
        proof {
            assert(self@ =~= before.push(entry));
            let after = self@;
            assert forall|i: int|
                0 <= i < after.len() && (#[trigger] after[i]).alive
                    && !after[i].held implies has_live_dependent(after, i) by {
                assert(after[i] == before[i]);
                assert(has_live_dependent(before, i));
                let j = choose|j: int|
                    i < j < before.len() && (#[trigger] before[j]).alive && refers_to(before, j, i);
                let p = choose|p: int|
                    0 <= p < before[j].parents.len() && #[trigger] before[j].parents[p] == i;
                assert(after[j] == before[j]);
                assert(after[j].parents[p] == i);
                assert(refers_to(after, j, i));
            }
            assert forall|j: int, k: int|
                0 <= j < after.len() && after[j].alive && 0 <= k
                    < after[j].parents.len() implies #[trigger] parent_alive(after, j, k) by {
                if j < before.len() {
                    assert(after[j] == before[j]);
                    assert(parent_alive(before, j, k));
                    assert(before[j].parents[k] < j);
                    assert(after[before[j].parents[k] as int] == before[before[j].parents[k] as int]);
                } else {
                    assert(after[j].parents[k] == parents@[k]);
                    assert(after[parents@[k] as int] == before[parents@[k] as int]);
                }
            }
        }
        Ok(index)
    }

    /// The creator of the object at `index` lets go of it. The object is
    /// destroyed unless something alive refers to it, and so is, in turn,
    /// every object that was only kept alive by an object that went.
    /// Returns the destroy calls that are due, youngest object first.
    /// Letting go of an object twice, or of one that is not in the table,
    /// changes nothing.
    #[verifier::loop_isolation(false)]
    pub fn release(&mut self, index: usize) -> (calls: Vec<DestroyCall>)
        requires
            wf(old(self)@),
        ensures
            wf(final(self)@),
            only_destroys(old(self)@, final(self)@, index as int),
            calls_match(old(self)@, final(self)@, calls@),
    {
        let mut calls: Vec<DestroyCall> = Vec::new();
        let n = self.entries.len();
        if index >= n || !self.entries[index].held {
            assert(self@ =~= old(self)@);
            return calls;
        }
        let ghost before = self@;
        self.entries[index].held = false;
        proof {
            let mid = self@;
            assert(mid.len() == before.len());
            assert forall|i: int| 0 <= i < before.len() implies {
                &&& (#[trigger] mid[i]).kind == before[i].kind
                &&& mid[i].handle == before[i].handle
                &&& mid[i].owns_handle == before[i].owns_handle
                &&& mid[i].parents == before[i].parents
                &&& mid[i].held == (before[i].held && i != index)
                &&& mid[i].alive == before[i].alive
            } by {}
            lemma_dependents_kept(before, mid, index as int + 1);
        }
        let mut i: usize = index + 1;
        while i > 0
            invariant
                i <= index + 1,
                index < n == self.entries@.len(),
                only_destroys(before, self@, index as int),
                forall|m: int| 0 <= m < i ==> (#[trigger] self@[m]).alive == before[m].alive,
                forall|m: int| index < m < n ==> (#[trigger] self@[m]).alive == before[m].alive,
                ordered(self@),
                no_dangling(self@),
                settled_from(self@, i as int),
                forall|m: int| 0 <= m < n && (#[trigger] self@[m]).held ==> self@[m].alive,
                forall|c: int|
                    0 <= c < calls@.len() ==> {
                        &&& destroyed(before, self@, (#[trigger] calls@[c]).index as int)
                        &&& calls@[c].index >= i
                        &&& before[calls@[c].index as int].owns_handle
                        &&& calls@[c].kind == before[calls@[c].index as int].kind
                        &&& calls@[c].handle == before[calls@[c].index as int].handle
                    },
                forall|a: int, b: int|
                    0 <= a < b < calls@.len() ==> (#[trigger] calls@[a]).index > (
                    #[trigger] calls@[b]).index,
                forall|m: int|
                    destroyed(before, self@, m) && before[m].owns_handle ==> exists|c: int|
                        0 <= c < calls@.len() && (#[trigger] calls@[c]).index == m,
            decreases i,
        {
            i = i - 1;
            let ghost prev = self@;
            assert(self@[i as int] == self.entries@[i as int]@);
            if self.entries[i].alive && !self.entries[i].held && !self.is_referred_to(i) {
                self.entries[i].alive = false;
                let ghost cur = self@;
                proof {
                    assert(cur.len() == prev.len());
                    assert forall|m: int| 0 <= m < n implies {
                        &&& (#[trigger] cur[m]).kind == prev[m].kind
                        &&& cur[m].handle == prev[m].handle
                        &&& cur[m].owns_handle == prev[m].owns_handle
                        &&& cur[m].parents == prev[m].parents
                        &&& cur[m].held == prev[m].held
                        &&& cur[m].alive == (prev[m].alive && m != i)
                    } by {}
                    lemma_destroy_keeps_order(prev, cur, i as int);
                }
                if self.entries[i].owns_handle {
                    let ghost old_calls = calls@;
                    calls.push(
                        DestroyCall {
                            index: i,
                            kind: self.entries[i].kind,
                            handle: self.entries[i].handle,
                        },
                    );
                    proof {
                        assert forall|m: int|
                            destroyed(before, cur, m) && before[m].owns_handle implies exists|
                            c: int,
                        |
                            0 <= c < calls@.len() && (#[trigger] calls@[c]).index == m by {
                            if m == i {
                                assert(calls@[old_calls.len() as int].index == i);
                            } else {
                                assert(destroyed(before, prev, m));
                                let c = choose|c: int|
                                    0 <= c < old_calls.len() && (#[trigger] old_calls[c]).index
                                        == m;
                                assert(calls@[c].index == m);
                            }
                        }
                    }
                } else {
                    proof {
                        assert forall|m: int|
                            destroyed(before, cur, m) && before[m].owns_handle implies exists|
                            c: int,
                        |
                            0 <= c < calls@.len() && (#[trigger] calls@[c]).index == m by {
                            assert(m != i);
                            assert(destroyed(before, prev, m));
                        }
                    }
                }
            }
        }
        calls
    }

    /// Lets go of every object and destroys all that are alive, youngest
    /// first, so that every object goes before the objects it refers to.
    /// Returns the destroy calls that are due, in that order.
    pub fn teardown(&mut self) -> (calls: Vec<DestroyCall>)
        requires
            wf(old(self)@),
        ensures
            wf(final(self)@),
            final(self)@.len() == old(self)@.len(),
            forall|m: int|
                0 <= m < old(self)@.len() ==> {
                    &&& (#[trigger] final(self)@[m]).kind == old(self)@[m].kind
                    &&& final(self)@[m].handle == old(self)@[m].handle
                    &&& final(self)@[m].owns_handle == old(self)@[m].owns_handle
                    &&& final(self)@[m].parents == old(self)@[m].parents
                    &&& !final(self)@[m].held
                    &&& !final(self)@[m].alive
                },
            calls_match(old(self)@, final(self)@, calls@),
    {
        let mut calls: Vec<DestroyCall> = Vec::new();
        let n = self.entries.len();
        let ghost before = self@;
        let mut i: usize = n;
        while i > 0
            invariant
                i <= n == self.entries@.len(),
                self@.len() == before.len(),
                forall|m: int|
                    0 <= m < n ==> {
                        &&& (#[trigger] self@[m]).kind == before[m].kind
                        &&& self@[m].handle == before[m].handle
                        &&& self@[m].owns_handle == before[m].owns_handle
                        &&& self@[m].parents == before[m].parents
                        &&& self@[m].held == (before[m].held && m < i)
                        &&& self@[m].alive == (before[m].alive && m < i)
                    },
                forall|c: int|
                    0 <= c < calls@.len() ==> {
                        &&& i <= (#[trigger] calls@[c]).index < n
                        &&& before[calls@[c].index as int].alive
                        &&& before[calls@[c].index as int].owns_handle
                        &&& calls@[c].kind == before[calls@[c].index as int].kind
                        &&& calls@[c].handle == before[calls@[c].index as int].handle
                    },
                forall|a: int, b: int|
                    0 <= a < b < calls@.len() ==> (#[trigger] calls@[a]).index > (
                    #[trigger] calls@[b]).index,
                forall|m: int|
                    i <= m && #[trigger] due(before, m) ==> exists|c: int|
                        0 <= c < calls@.len() && (#[trigger] calls@[c]).index == m,
            decreases i,
        {
            i = i - 1;
            let ghost prev = self@;
            let ghost old_calls = calls@;
            assert(self@[i as int] == self.entries@[i as int]@);
            let was_alive = self.entries[i].alive;
            self.entries[i].held = false;
            self.entries[i].alive = false;
            assert forall|m: int| 0 <= m < n implies {
                &&& (#[trigger] self@[m]).kind == before[m].kind
                &&& self@[m].handle == before[m].handle
                &&& self@[m].owns_handle == before[m].owns_handle
                &&& self@[m].parents == before[m].parents
                &&& self@[m].held == (before[m].held && m < i)
                &&& self@[m].alive == (before[m].alive && m < i)
            } by {
                assert(prev[m].kind == before[m].kind);
            }
            assert(!was_alive || !prev[i as int].owns_handle ==> !due(before, i as int));
            if was_alive && self.entries[i].owns_handle {
                calls.push(
                    DestroyCall { index: i, kind: self.entries[i].kind, handle: self.entries[i].handle },
                );
                assert forall|m: int| i <= m && #[trigger] due(before, m) implies exists|c: int|
                    0 <= c < calls@.len() && (#[trigger] calls@[c]).index == m by {
                    if m == i {
                        assert(calls@[old_calls.len() as int].index == i);
                    } else {
                        let c = choose|c: int|
                            0 <= c < old_calls.len() && (#[trigger] old_calls[c]).index == m;
                        assert(calls@[c].index == m);
                    }
                }
            }
        }
        proof {
            let after = self@;
            assert forall|j: int, k: int|
                0 <= j < after.len() && 0 <= k
                    < after[j].parents.len() implies #[trigger] after[j].parents[k] < j by {
                assert(before[j].parents[k] < j);
            }
            assert forall|c: int| 0 <= c < calls@.len() implies destroyed(
                before,
                after,
                (#[trigger] calls@[c]).index as int,
            ) by {}
            assert forall|m: int|
                destroyed(before, after, m) && before[m].owns_handle implies exists|c: int|
                0 <= c < calls@.len() && (#[trigger] calls@[c]).index == m by {
                assert(due(before, m));
            }
        }
        calls
    }
}

/// The object at `m` is alive and owns its handle, so that a destroy call
/// is due when it goes.
pub open spec fn due(t: Seq<ResourceSpec>, m: int) -> bool {
    0 <= m < t.len() && t[m].alive && t[m].owns_handle
}

/// Letting go of an object takes no dependent from any other object.
pub proof fn lemma_dependents_kept(before: Seq<ResourceSpec>, after: Seq<ResourceSpec>, from: int)
    requires
        0 <= from,
        after.len() == before.len(),
        forall|i: int|
            0 <= i < before.len() ==> (#[trigger] after[i]).parents == before[i].parents
                && after[i].alive == before[i].alive,
        forall|i: int| from <= i < before.len() ==> (#[trigger] after[i]).held == before[i].held,
        settled_from(before, 0),
        ordered(before),
        no_dangling(before),
    ensures
        settled_from(after, from),
        ordered(after),
        no_dangling(after),
{
    assert forall|i: int|
        from <= i < after.len() && (#[trigger] after[i]).alive
            && !after[i].held implies has_live_dependent(after, i) by {
        assert(before[i].alive && !before[i].held);
        assert(has_live_dependent(before, i));
        let j = choose|j: int|
            i < j < before.len() && (#[trigger] before[j]).alive && refers_to(before, j, i);
        let k = choose|k: int| 0 <= k < before[j].parents.len() && #[trigger] before[j].parents[k] == i;
        assert(after[j].parents[k] == i);
        assert(refers_to(after, j, i));
        assert(after[j].alive);
    }
    assert forall|j: int, k: int|
        0 <= j < after.len() && 0 <= k < after[j].parents.len() implies #[trigger] after[j].parents[k]
        < j by {
        assert(before[j].parents[k] < j);
    }
    assert forall|j: int, k: int|
        0 <= j < after.len() && after[j].alive && 0 <= k
            < after[j].parents.len() implies #[trigger] parent_alive(after, j, k) by {
        assert(parent_alive(before, j, k));
        assert(before[j].parents[k] < j);
    }
}

/// Destroying an object that nobody holds and nothing alive refers to
/// leaves no reference dangling and unsettles no younger object.
pub proof fn lemma_destroy_keeps_order(before: Seq<ResourceSpec>, after: Seq<ResourceSpec>, i: int)
    requires
        0 <= i < before.len(),
        after.len() == before.len(),
        forall|m: int|
            0 <= m < before.len() ==> (#[trigger] after[m]).parents == before[m].parents
                && after[m].held == before[m].held && after[m].alive == (before[m].alive && m
                != i),
        !before[i].held,
        !has_live_dependent(before, i),
        ordered(before),
        no_dangling(before),
        settled_from(before, i + 1),
    ensures
        ordered(after),
        no_dangling(after),
        settled_from(after, i),
{
    assert forall|j: int, k: int|
        0 <= j < after.len() && 0 <= k < after[j].parents.len() implies #[trigger] after[j].parents[k]
        < j by {
        assert(before[j].parents[k] < j);
    }
    assert forall|j: int, k: int|
        0 <= j < after.len() && after[j].alive && 0 <= k
            < after[j].parents.len() implies #[trigger] parent_alive(after, j, k) by {
        assert(parent_alive(before, j, k));
        assert(before[j].parents[k] < j);
        if before[j].parents[k] == i {
            assert(refers_to(before, j, i));
            assert(before[j].alive);
            assert(has_live_dependent(before, i));
        }
    }
    assert forall|m: int|
        i <= m < after.len() && (#[trigger] after[m]).alive
            && !after[m].held implies has_live_dependent(after, m) by {
        assert(m != i);
        assert(has_live_dependent(before, m));
        let j = choose|j: int|
            m < j < before.len() && (#[trigger] before[j]).alive && refers_to(before, j, m);
        let k = choose|k: int| 0 <= k < before[j].parents.len() && #[trigger] before[j].parents[k] == m;
        assert(after[j].parents[k] == m);
        assert(refers_to(after, j, m));
        assert(after[j].alive);
    }
}

} // verus!
