use vstd::prelude::*;

verus! {

/// The guard kinds this library knows, each owning one bit of the 64-bit
/// mask through which a guard set says which guards are active.
#[derive(Clone, Copy, Debug, PartialEq, Eq, Structural)]
pub enum GuardType {
    Memo,
}

impl GuardType {
    /// The bit a guard kind owns in the mask.
    pub open spec fn bit(self) -> nat {
        match self {
            GuardType::Memo => 0,
        }
    }

    pub open spec fn mask_spec(self) -> u64 {
        (1u64 << (self.bit() as u64)) as u64
    }

    /// The mask with only this kind's bit set.
    pub fn as_mask(guard_type: GuardType) -> (r: u64)
        ensures
            r == guard_type.mask_spec(),
    {
        let bit: u64 = match guard_type {
            GuardType::Memo => 0,
        };
        1u64 << bit
    }
}

/// Every guard kind's mask has exactly one bit set, and no two kinds share it.
pub proof fn lemma_masks_single_and_distinct(a: GuardType, b: GuardType)
    ensures
        a.bit() < 64,
        a.mask_spec() != 0,
        a.mask_spec() & (a.mask_spec() - 1) as u64 == 0,
        a != b ==> a.mask_spec() & b.mask_spec() == 0,
{
    let m: u64 = a.mask_spec();
    let s: u64 = a.bit() as u64;
    assert(s < 64);
    assert(m == 1u64 << s);
    assert((1u64 << s) != 0 && (1u64 << s) & (((1u64 << s) - 1) as u64) == 0) by (bit_vector)
        requires
            s < 64,
    ;
    if a != b {
        let t: u64 = b.bit() as u64;
        assert(s != t);
        assert((1u64 << s) & (1u64 << t) == 0) by (bit_vector)
            requires
                s < 64,
                t < 64,
                s != t,
        ;
    }
}

} // verus!
