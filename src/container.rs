//! A container for the components of one type, keyed by entity id, that keeps
//! track of which entities own a component.
use vstd::prelude::*;
use crate::bitset::{bitset_members, id_limit};
use crate::storage::{ComponentStorage, CreateWithCapacity, IdType};
use hibitset::BitSet;

verus! {

/// Components of one type in a storage `S`, with the set of ids that hold a
/// component beside it. An id is in the set exactly when the storage holds a
/// component for it.
pub struct ComponentContainer<T, S> {
    users: BitSet,
    storage: S,
    _component: core::marker::PhantomData<T>,
}

impl<T, S: ComponentStorage<T>> ComponentContainer<T, S> {
    /// The ids that own a component.
    pub closed spec fn members(&self) -> Set<u32> {
        bitset_members(self.users)
    }

    /// The stored components, by id.
    pub closed spec fn stored(&self) -> Map<int, T> {
        self.storage.entries()
    }

    /// The component stored for `id`, if any.
    pub open spec fn component(&self, id: int) -> Option<T> {
        if self.stored().contains_key(id) {
            Some(self.stored()[id])
        } else {
            None
        }
    }

    /// Well-formed: every stored id lies within the id range of the
    /// membership set, and an id is a member exactly when it has a stored
    /// component.
    pub open spec fn wf(&self) -> bool {
        &&& forall|id: int| #[trigger] self.stored().contains_key(id) ==> 0 <= id < id_limit()
        &&& forall|id: u32|
            #![trigger self.members().contains(id)]
            #![trigger self.component(id as int)]
            self.members().contains(id) <==> self.component(id as int) is Some
    }

    /// `after` is `before` with `comp` stored for `id`: the id joins the
    /// members, it holds `comp`, and every other id keeps its component.
    pub open spec fn inserted(before: Self, after: Self, id: int, comp: T) -> bool {
        &&& after.members() == before.members().insert(id as u32)
        &&& after.component(id) == Some(comp)
        &&& forall|j: int| j != id ==> #[trigger] after.component(j) == before.component(j)
    }

    /// An empty container whose storage has room for `capacity` ids.
    pub fn new(capacity: IdType) -> (r: Self)
        where
            S: CreateWithCapacity<T>,
        requires
            capacity <= id_limit(),
        ensures
            r.wf(),
            r.members() == Set::<u32>::empty(),
            forall|j: int| #[trigger] r.component(j) is None,
    {
        ComponentContainer {
            users: BitSet::with_capacity(capacity as u32),
            storage: S::create_with_capacity(capacity),
            _component: core::marker::PhantomData,
        }
    }

    /// Store `comp` for `id`, replacing what `id` held before, and mark `id`
    /// as a member.
    pub fn insert(&mut self, id: IdType, comp: T)
        requires
            old(self).wf(),
            id < id_limit(),
        ensures
            final(self).wf(),
            Self::inserted(*old(self), *final(self), id as int, comp),
    {
        self.users.add(id as u32);
        self.storage.insert(id, comp);
        assert forall|j: u32|
            #![trigger self.members().contains(j)]
            #![trigger self.component(j as int)]
            self.members().contains(j) <==> self.component(j as int) is Some by {
            assert(old(self).members().contains(j) <==> old(self).component(j as int) is Some);
        }
        assert forall|j: int| #[trigger] self.stored().contains_key(j) implies 0 <= j < id_limit() by {
            if j != id {
                assert(old(self).stored().contains_key(j));
            }
        }
        assert forall|j: int| j != id implies #[trigger] self.component(j) == old(self).component(j) by {
        }
    }

    /// The set of ids that own a component.
    pub fn get_users(&self) -> (r: &BitSet)
        ensures
            bitset_members(*r) == self.members(),
    {
        &self.users
    }

    /// Read access to the storage.
    pub fn read(&self) -> (r: &S)
        ensures
            r.entries() == self.stored(),
    {
        &self.storage
    }
}

/// Membership follows insertion: after `insert(id, comp)` the id is a member
/// and reading its slot gives `comp`; an id that was not a member before and
/// is not `id` is still not a member and still has no component. So, starting
/// from a new (empty) container, exactly the inserted ids are members.
pub proof fn lemma_insert_membership<T, S: ComponentStorage<T>>(
    before: ComponentContainer<T, S>,
    after: ComponentContainer<T, S>,
    id: u32,
    comp: T,
    other: u32,
)
    requires
        before.wf(),
        after.wf(),
        ComponentContainer::inserted(before, after, id as int, comp),
    ensures
        after.members().contains(id),
        after.component(id as int) == Some(comp),
        other != id && !before.members().contains(other) ==> {
            &&& !after.members().contains(other)
            &&& after.component(other as int) is None
        },
{
    assert(after.component(id as int) is Some);
    if other != id && !before.members().contains(other) {
        assert(before.component(other as int) is None);
        assert(after.component(other as int) == before.component(other as int));
    }
}

/// `cs` is a run of inserts from an empty container: `cs[0]` holds nothing
/// and each `cs[k + 1]` is `cs[k]` with `vals[k]` stored for `ids[k]`.
pub open spec fn insert_run<T, S: ComponentStorage<T>>(
    cs: Seq<ComponentContainer<T, S>>,
    ids: Seq<u32>,
    vals: Seq<T>,
) -> bool {
    &&& cs.len() == ids.len() + 1
    &&& vals.len() == ids.len()
    &&& cs[0].members() == Set::<u32>::empty()
    &&& forall|j: int| #[trigger] cs[0].component(j) is None
    &&& forall|k: int|
        #![trigger ids[k]]
        0 <= k < ids.len() ==> ComponentContainer::inserted(cs[k], cs[k + 1], ids[k] as int, vals[k])
}

/// Membership after any run of inserts from an empty container: an id is a
/// member, and has a component, exactly when it was inserted; and an id
/// inserted at position `k` and never again holds the value inserted there.
pub proof fn lemma_insert_run_membership<T, S: ComponentStorage<T>>(
    cs: Seq<ComponentContainer<T, S>>,
    ids: Seq<u32>,
    vals: Seq<T>,
    i: u32,
    k: int,
)
    requires
        insert_run(cs, ids, vals),
    ensures
        cs.last().members().contains(i) <==> ids.contains(i),
        cs.last().component(i as int) is Some <==> ids.contains(i),
        0 <= k < ids.len() && ids[k] == i && (forall|m: int| k < m < ids.len() ==> ids[m] != i)
            ==> cs.last().component(i as int) == Some(vals[k]),
    decreases ids.len(),
{
    let n = ids.len() as int;
    if n == 0 {
        assert(!ids.contains(i));
    } else {
        let pcs = cs.drop_last();
        let pids = ids.drop_last();
        let pvals = vals.drop_last();
        assert forall|j: int| 0 <= j < pids.len() implies ComponentContainer::inserted(
            pcs[j],
            pcs[j + 1],
            #[trigger] pids[j] as int,
            pvals[j],
        ) by {
            assert(ids[j] == pids[j]);
        }
        lemma_insert_run_membership(pcs, pids, pvals, i, k);
        let prev = cs[n - 1];
        let last = cs[n];
        assert(pcs.last() == prev);
        assert(cs.last() == last);
        assert(ComponentContainer::inserted(prev, last, ids[n - 1] as int, vals[n - 1]));
        if pids.contains(i) {
            let j = choose|j: int| 0 <= j < pids.len() && pids[j] == i;
            assert(ids[j] == i);
        }
        if ids.contains(i) {
            let j = choose|j: int| 0 <= j < ids.len() && ids[j] == i;
            if j < n - 1 {
                assert(pids[j] == i);
            }
        }
        if ids[n - 1] == i {
            assert(ids.contains(i)) by {
                assert(ids[n - 1] == i);
            }
        } else {
            assert(last.component(i as int) == prev.component(i as int));
        }
        if 0 <= k < n && ids[k] == i && (forall|m: int| k < m < n ==> ids[m] != i) {
            if k < n - 1 {
                assert(ids[n - 1] != i);
                assert forall|m: int| k < m < pids.len() implies pids[m] != i by {
                    assert(ids[m] != i);
                }
            }
        }
    }
}

} // verus!
