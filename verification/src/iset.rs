//! A fixed-capacity set of field indices, kept in one machine word.

use vstd::prelude::*;

verus! {

/// Number of indices an [`ISet`] can track.
pub const ISET_CAPACITY: usize = 64;

/// Whether bit `index` of `bits` is one.
spec fn bit_is_set(bits: u64, index: int) -> bool {
    0 <= index < 64 && (bits >> (index as u64)) & 1 == 1
}

/// The word whose lowest `count` bits are one and whose other bits are zero.
spec fn low_mask(count: int) -> u64 {
    if count >= 64 {
        u64::MAX
    } else if count <= 0 {
        0
    } else {
        (((1u64 << (count as u64)) - 1) as u64)
    }
}

proof fn lemma_bit_after_set(bits: u64, index: u64, other: u64)
    by (bit_vector)
    requires
        index < 64,
        other < 64,
    ensures
        (((bits | (1u64 << index)) >> other) & 1 == 1) == (other == index || (bits >> other) & 1
            == 1),
{
}

proof fn lemma_bit_after_unset(bits: u64, index: u64, other: u64)
    by (bit_vector)
    requires
        index < 64,
        other < 64,
    ensures
        (((bits & !(1u64 << index)) >> other) & 1 == 1) == (other != index && (bits >> other) & 1
            == 1),
{
}

proof fn lemma_bit_test(bits: u64, index: u64)
    by (bit_vector)
    requires
        index < 64,
    ensures
        ((bits & (1u64 << index)) != 0) == ((bits >> index) & 1 == 1),
{
}

proof fn lemma_no_bit_in_zero(other: u64)
    by (bit_vector)
    requires
        other < 64,
    ensures
        (0u64 >> other) & 1 == 0,
{
}

proof fn lemma_mask_grows(bits: u64, count: u64)
    by (bit_vector)
    requires
        count < 63,
    ensures
        1u64 << count >= 1,
        1u64 << ((count + 1) as u64) >= 1,
        ((bits & (((1u64 << ((count + 1) as u64)) - 1) as u64)) == (((1u64 << ((count + 1) as u64))
            - 1) as u64)) == ((bits & (((1u64 << count) - 1) as u64)) == (((1u64 << count)
            - 1) as u64) && (bits >> count) & 1 == 1),
{
}

proof fn lemma_mask_full(bits: u64)
    by (bit_vector)
    ensures
        1u64 << 63 >= 1,
        (bits == 0xffff_ffff_ffff_ffffu64) == ((bits & (((1u64 << 63) - 1) as u64)) == (((1u64
            << 63) - 1) as u64) && (bits >> 63) & 1 == 1),
        bits & 0 == 0,
        bits & 0xffff_ffff_ffff_ffffu64 == bits,
{
}

/// A word covers the low mask of `count` exactly when each of its lowest
/// `count` bits is one.
proof fn lemma_low_mask_covers(bits: u64, count: int)
    requires
        0 <= count <= 64,
    ensures
        (bits & low_mask(count) == low_mask(count)) <==> (forall|i: int|
            0 <= i < count ==> bit_is_set(bits, i)),
    decreases count,
{
    if count == 0 {
        lemma_mask_full(bits);
    } else {
        let prev: int = count - 1;
        let covers_prev: bool = bits & low_mask(prev) == low_mask(prev);
        let covers: bool = bits & low_mask(count) == low_mask(count);
        lemma_low_mask_covers(bits, prev);
        assert(covers == (covers_prev && bit_is_set(bits, prev))) by {
            if count == 64 {
                lemma_mask_full(bits);
            } else {
                lemma_mask_grows(bits, prev as u64);
                assert(((1u64 << 0u64) - 1) as u64 == 0) by (bit_vector);
            }
        }
        if covers {
            assert forall|i: int| 0 <= i < count implies bit_is_set(bits, i) by {
                if i < prev {
                    assert(bit_is_set(bits, i));
                } else {
                    assert(i == prev);
                }
            }
        }
        if forall|i: int| 0 <= i < count ==> bit_is_set(bits, i) {
            assert(bit_is_set(bits, prev));
            assert(forall|i: int| 0 <= i < prev ==> bit_is_set(bits, i));
        }
    }
}

/// Records which fields of a value under construction were initialized, for
/// up to 64 fields.
#[derive(Clone, Copy)]
pub struct ISet(u64);

impl View for ISet {
    type V = Set<int>;

    /// The indices that are marked.
    closed spec fn view(&self) -> Set<int> {
        Set::new(|i: int| bit_is_set(self.0, i))
    }
}

impl Default for ISet {
    /// The set in which no index is marked.
    fn default() -> (r: ISet)
        ensures
            r@ == Set::<int>::empty(),
    {
        let r = ISet(0);
        proof {
            assert forall|i: int| !r@.contains(i) by {
                if 0 <= i < 64 {
                    lemma_no_bit_in_zero(i as u64);
                }
            }
            assert(r@ =~= Set::<int>::empty());
        }
        r
    }
}

impl ISet {
    /// Every marked index lies below the capacity.
    pub proof fn lemma_bounded(self)
        ensures
            forall|i: int| self@.contains(i) ==> 0 <= i < ISET_CAPACITY,
    {
    }

    /// Marks `index`.
    pub fn set(&mut self, index: usize)
        requires
            index < ISET_CAPACITY,
        ensures
            final(self)@ == old(self)@.insert(index as int),
    {
        let bits: u64 = self.0;
        self.0 = bits | (1u64 << index);
        proof {
            assert(1u64 << index == 1u64 << (index as u64));
            assert forall|i: int| self@.contains(i) == old(self)@.insert(index as int).contains(
                i,
            ) by {
                if 0 <= i < 64 {
                    lemma_bit_after_set(bits, index as u64, i as u64);
                }
            }
            assert(self@ =~= old(self)@.insert(index as int));
        }
    }

    /// Clears the mark of `index`.
    pub fn unset(&mut self, index: usize)
        requires
            index < ISET_CAPACITY,
        ensures
            final(self)@ == old(self)@.remove(index as int),
    {
        let bits: u64 = self.0;
        self.0 = bits & !(1u64 << index);
        proof {
            assert(1u64 << index == 1u64 << (index as u64));
            assert forall|i: int| self@.contains(i) == old(self)@.remove(index as int).contains(
                i,
            ) by {
                if 0 <= i < 64 {
                    lemma_bit_after_unset(bits, index as u64, i as u64);
                }
            }
            assert(self@ =~= old(self)@.remove(index as int));
        }
    }

    /// Whether `index` is marked.
    pub fn has(&self, index: usize) -> (r: bool)
        requires
            index < ISET_CAPACITY,
        ensures
            r == self@.contains(index as int),
    {
        proof {
            assert(1u64 << index == 1u64 << (index as u64));
            lemma_bit_test(self.0, index as u64);
        }
        (self.0 & (1u64 << index)) != 0
    }

    /// Whether every index below `count` is marked.
    pub fn all_set(&self, count: usize) -> (r: bool)
        requires
            count <= ISET_CAPACITY,
        ensures
            r <==> (forall|i: int| 0 <= i < count ==> self@.contains(i)),
    {
        proof {
            lemma_low_mask_covers(self.0, count as int);
            lemma_mask_full(self.0);
            assert forall|i: int| self@.contains(i) == bit_is_set(self.0, i) by {}
        }
        if count == 64 {
            self.0 == u64::MAX
        } else if count == 0 {
            proof {
                assert(self.0 & 0 == 0) by (bit_vector);
            }
            true
        } else {
            proof {
                assert(1u64 << count == 1u64 << (count as u64));
                assert(1u64 << (count as u64) >= 1) by (bit_vector)
                    requires
                        count < 64,
                ;
            }
            let mask: u64 = (1u64 << count) - 1;
            self.0 & mask == mask
        }
    }
}

} // verus!
