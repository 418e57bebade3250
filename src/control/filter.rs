//! # Resource filters
//!
//! The kernel reports compatibility between resources as a bitmask in which
//! bit `i` stands for the resource at index `i` of the device's ordered
//! resource list. A [`ResourceFilter`] is that bitmask decoded against such a
//! list: the set of handles whose bits are set.
use vstd::prelude::*;

verus! {

/// Whether bit `i` of `mask` is set. Positions outside `0..32` are never set.
pub open spec fn mask_has(mask: u32, i: int) -> bool {
    0 <= i < 32 && (mask >> (i as u32)) & 1u32 == 1u32
}

/// The handles that `mask` selects from `universe`: `universe[i]` for every
/// index `i` of `universe` whose bit is set. Bits at or beyond the length of
/// `universe` select nothing.
pub open spec fn decoded<H>(mask: u32, universe: Seq<H>) -> Set<H> {
    Set::new(|h: H| exists|i: int| 0 <= i < universe.len() && mask_has(mask, i) && universe[i] == h)
}

/// A mask with no bit set selects nothing, whatever the universe.
pub proof fn lemma_zero_mask_selects_nothing<H>(universe: Seq<H>)
    ensures
        decoded(0u32, universe) == Set::<H>::empty(),
{
    assert forall|i: int| !#[trigger] mask_has(0u32, i) by {
        if 0 <= i < 32 {
            let s = i as u32;
            assert((0u32 >> s) & 1u32 == 0u32) by (bit_vector);
        }
    }
    assert(decoded(0u32, universe) =~= Set::<H>::empty());
}

/// A set bit whose position indexes the universe selects the handle there.
pub proof fn lemma_set_bit_selects<H>(mask: u32, universe: Seq<H>, i: int)
    requires
        0 <= i < universe.len(),
        mask_has(mask, i),
    ensures
        decoded(mask, universe).contains(universe[i]),
{
}

/// A bit at or beyond the length of the universe selects nothing: clearing
/// it leaves the decoded set as it was.
pub proof fn lemma_bits_beyond_universe_ignored<H>(mask: u32, universe: Seq<H>, i: u32)
    requires
        universe.len() <= i < 32,
    ensures
        decoded(mask & !(1u32 << i), universe) == decoded(mask, universe),
{
    let cleared = mask & !(1u32 << i);
    assert forall|j: int| 0 <= j < universe.len() implies #[trigger] mask_has(cleared, j)
        == mask_has(mask, j) by {
        let s = j as u32;
        assert(s != i && s < 32 ==> ((mask & !(1u32 << i)) >> s) & 1u32 == (mask >> s) & 1u32)
            by (bit_vector);
    }
    assert forall|h: H| decoded(cleared, universe).contains(h) <==> decoded(mask, universe).contains(
        h,
    ) by {
        if decoded(cleared, universe).contains(h) {
            let j = choose|j: int| 0 <= j < universe.len() && mask_has(cleared, j) && universe[j] == h;
            assert(mask_has(mask, j));
        }
        if decoded(mask, universe).contains(h) {
            let j = choose|j: int| 0 <= j < universe.len() && mask_has(mask, j) && universe[j] == h;
            assert(mask_has(cleared, j));
        }
    }
    assert(decoded(cleared, universe) =~= decoded(mask, universe));
}

/// A handle of a mode-setting resource: a copyable identity that can be
/// compared.
pub trait ResourceHandle: Copy {
    /// Whether the two handles name the same resource.
    fn same_as(&self, other: &Self) -> (r: bool)
        ensures
            r == (*self == *other),
    ;
}

/// The set of handles that a capability bitmask selects from an ordered
/// list of handles.
pub struct ResourceFilter<H> {
    members: Vec<H>,
}

impl<H> View for ResourceFilter<H> {
    type V = Set<H>;

    closed spec fn view(&self) -> Set<H> {
        self.members@.to_set()
    }
}

impl<H: Copy> ResourceFilter<H> {
    /// Decodes `mask` against `universe`, the device's ordered list of
    /// handles of the resource kind that the mask refers to.
    pub fn decode(mask: u32, universe: &[H]) -> (r: Self)
        ensures
            r@ == decoded(mask, universe@),
    {
        let mut members: Vec<H> = Vec::new();
        let mut i: usize = 0;
        while i < universe.len() && i < 32
            invariant
                i <= universe.len(),
                i <= 32,
                forall|h: H|
                    members@.contains(h) <==> exists|j: int|
                        0 <= j < i && mask_has(mask, j) && universe@[j] == h,
            decreases universe.len() - i,
        {
            let ghost before = members@;
            let set = (mask >> (i as u32)) & 1u32 == 1u32;
            assert(set == mask_has(mask, i as int));
            if set {
                members.push(universe[i]);
                assert(members@ == before.push(universe@[i as int]));
            }
            assert(!set ==> members@ == before);
            assert forall|h: H|
                members@.contains(h) <==> exists|j: int|
                    0 <= j < i + 1 && mask_has(mask, j) && universe@[j] == h by {
                if members@.contains(h) && !before.contains(h) {
                    let k = choose|k: int| 0 <= k < members@.len() && members@[k] == h;
                    if k < before.len() {
                        assert(before[k] == h);
                    }
                    assert(set && k == before.len());
                    assert(universe@[i as int] == h);
                }
                if exists|j: int| 0 <= j < i + 1 && mask_has(mask, j) && universe@[j] == h {
                    let j = choose|j: int| 0 <= j < i + 1 && mask_has(mask, j) && universe@[j] == h;
                    if j == i {
                        assert(set);
                        assert(members@[before.len() as int] == h);
                    } else {
                        assert(before.contains(h));
                    }
                }
                if before.contains(h) {
                    let k = choose|k: int| 0 <= k < before.len() && before[k] == h;
                    assert(members@[k] == h);
                }
            }
            i = i + 1;
        }
        let r = ResourceFilter { members };
        assert(r@ =~= decoded(mask, universe@));
        r
    }

    /// Whether the filter selects no handle at all (an all-zero mask, or
    /// one whose bits all lie beyond the universe).
    pub fn is_empty(&self) -> (r: bool)
        ensures
            r == (self@ == Set::<H>::empty()),
    {
        if self.members.len() == 0 {
            assert(self@ =~= Set::<H>::empty());
            true
        } else {
            assert(self@.contains(self.members@[0]));
            false
        }
    }

    /// Whether `h` is among the handles that the filter selects.
    pub fn contains(&self, h: &H) -> (r: bool)
        where
            H: ResourceHandle,
        ensures
            r == self@.contains(*h),
    {
        let mut i: usize = 0;
        while i < self.members.len()
            invariant
                i <= self.members.len(),
                forall|j: int| 0 <= j < i ==> self.members@[j] != *h,
            decreases self.members.len() - i,
        {
            if self.members[i].same_as(h) {
                assert(self.members@.contains(*h));
                return true;
            }
            i = i + 1;
        }
        false
    }
}

} // verus!
