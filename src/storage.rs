//! The storage of one component type, keyed by entity id. Implementations
//! differ in how they lay the components out; the container only needs to
//! insert by id and to create a storage with room for a number of ids.
use vstd::prelude::*;
use crate::bitset::id_limit;

verus! {

/// Entity handle, used the same way by every container.
pub type IdType = usize;

/// A growable storage of components of type `T`, indexed by entity id.
pub trait ComponentStorage<T>: Sized {
    /// The stored components, by id.
    spec fn entries(&self) -> Map<int, T>;

    /// Store `comp` for `id`, replacing what `id` held before.
    fn insert(&mut self, id: IdType, comp: T)
        requires
            id < id_limit(),
        ensures
            final(self).entries() == old(self).entries().insert(id as int, comp),
    ;

    /// The component stored for `id`, if any.
    fn get(&self, id: IdType) -> (r: Option<&T>)
        ensures
            self.entries().contains_key(id as int) <==> r is Some,
            r matches Some(v) ==> *v == self.entries()[id as int],
    ;
}

/// A storage that can be created with room for a number of ids, so that a
/// container can avoid growing it piece by piece.
pub trait CreateWithCapacity<T>: ComponentStorage<T> {
    /// An empty storage with room for `capacity` ids.
    fn create_with_capacity(capacity: IdType) -> (r: Self)
        ensures
            r.entries() == Map::<int, T>::empty(),
    ;
}

/// A dense storage: one slot per id, up to the largest id stored.
pub struct VecStorage<T> {
    slots: Vec<Option<T>>,
}

impl<T> VecStorage<T> {
    /// The slots, indexed by id.
    pub closed spec fn slots(&self) -> Seq<Option<T>> {
        self.slots@
    }

    /// Number of slots.
    pub fn len(&self) -> (r: usize)
        ensures
            r == self.slots().len(),
    {
        self.slots.len()
    }
}

impl<T> ComponentStorage<T> for VecStorage<T> {
    closed spec fn entries(&self) -> Map<int, T> {
        Map::new(
            |id: int| 0 <= id < self.slots@.len() && self.slots@[id] is Some,
            |id: int| self.slots@[id]->Some_0,
        )
    }

    fn insert(&mut self, id: IdType, comp: T) {
        let ghost old_slots = self.slots@;
        while self.slots.len() <= id
            invariant
                old_slots == old(self).slots@,
                old_slots.len() <= self.slots@.len(),
                forall|j: int| 0 <= j < old_slots.len() ==> self.slots@[j] == old_slots[j],
                forall|j: int| old_slots.len() <= j < self.slots@.len() ==> self.slots@[j] is None,
            decreases id + 1 - self.slots.len(),
        {
            self.slots.push(None);
        }
        self.slots.set(id, Some(comp));
        assert(self.entries() =~= old(self).entries().insert(id as int, comp));
    }

    fn get(&self, id: IdType) -> (r: Option<&T>) {
        if id < self.slots.len() {
            match &self.slots[id] {
                Some(v) => Some(v),
                None => None,
            }
        } else {
            None
        }
    }
}

impl<T> CreateWithCapacity<T> for VecStorage<T> {
    fn create_with_capacity(capacity: IdType) -> (r: Self) {
        let r = VecStorage { slots: Vec::with_capacity(capacity) };
        assert(r.entries() =~= Map::<int, T>::empty());
        r
    }
}

} // verus!
