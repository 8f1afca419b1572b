//! The membership set of a component container: hibitset's hierarchical
//! `BitSet`, with the contents of a set named so that contracts can speak of it.
use vstd::prelude::*;

verus! {

/// Number of ids a `BitSet` can hold where `usize` has 64 bits.
pub const MAX_IDS_64: u32 = 16_777_216;

/// Number of ids a `BitSet` can hold where `usize` has 32 bits.
pub const MAX_IDS_32: u32 = 1_048_576;

/// Number of ids a `BitSet` can hold on this target: one `usize` of bits per
/// row and four layers of rows. Ids are below this.
pub open spec fn id_limit() -> u32 {
    if usize::MAX as int == u64::MAX as int {
        MAX_IDS_64
    } else {
        MAX_IDS_32
    }
}

/// Number of ids a `BitSet` can hold on this target.
pub fn max_ids() -> (r: u32)
    ensures
        r == id_limit(),
{
    if usize::MAX as u64 == u64::MAX {
        MAX_IDS_64
    } else {
        MAX_IDS_32
    }
}

/// The hierarchical bit set of the `hibitset` crate.
#[verifier::external_type_specification]
#[verifier::external_body]
pub struct ExBitSet(hibitset::BitSet);

/// The ids a `BitSet` holds.
pub uninterp spec fn bitset_members(s: hibitset::BitSet) -> Set<u32>;

/// Relies on `hibitset::BitSet::with_capacity`: an empty set with room for
/// ids up to `max`; it panics for `max` above the limit of the target's
/// pointer width (2^24 on 64-bit targets, 2^20 on 32-bit ones).
pub assume_specification[ hibitset::BitSet::with_capacity ](max: u32) -> (r: hibitset::BitSet)
    requires
        max <= id_limit(),
    ensures
        bitset_members(r) == Set::<u32>::empty(),
;

/// Relies on `hibitset::BitSet::add`: adds `id` and returns whether it was
/// already there. Ids past the target's limit make it panic; the limit itself
/// is the documented bound (`usize**4` indices) and is left out as well.
pub assume_specification[ hibitset::BitSet::add ](s: &mut hibitset::BitSet, id: u32) -> (r: bool)
    requires
        id < id_limit(),
    ensures
        bitset_members(*final(s)) == bitset_members(*old(s)).insert(id),
        r == bitset_members(*old(s)).contains(id),
;

} // verus!
