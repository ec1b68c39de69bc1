//! Sets of permission flags, held as the platform's 64-bit mask

use vstd::prelude::*;

verus! {

/// A set of permission flags
///
/// Flag `i` (counted from the least significant bit) is a member when bit `i`
/// of [`PermissionSet::bits`] is set.
#[derive(Clone, Copy, Debug, PartialEq, Eq, Structural)]
pub struct PermissionSet {
    /// The platform's bit mask
    pub bits: u64,
}

/// Whether bit `flag` of `bits` is set
pub open spec fn bit_set(bits: u64, flag: u64) -> bool {
    flag < 64 && (bits >> flag) & 1 == 1
}

impl View for PermissionSet {
    type V = Set<nat>;

    /// The indices of the flags that are members
    open spec fn view(&self) -> Set<nat> {
        Set::new(|flag: nat| flag < 64 && bit_set(self.bits, flag as u64))
    }
}

/// If some bit at or above `from` is set, a flag is a member.
proof fn lemma_bit_at_or_above(bits: u64, from: u64)
    requires
        from < 64,
        bits >> from != 0,
    ensures
        exists|flag: u64| bit_set(bits, flag),
    decreases 64 - from,
{
    if (bits >> from) & 1 == 1 {
        assert(bit_set(bits, from));
    } else {
        assert(from < 63 && bits >> ((from + 1) as u64) != 0) by (bit_vector)
            requires
                from < 64,
                bits >> from != 0,
                (bits >> from) & 1 != 1,
        ;
        lemma_bit_at_or_above(bits, (from + 1) as u64);
    }
}

/// A mask other than zero has a bit that is set.
pub proof fn lemma_nonzero_has_bit(bits: u64)
    requires
        bits != 0,
    ensures
        exists|flag: u64| bit_set(bits, flag),
{
    assert(bits >> 0 != 0) by (bit_vector)
        requires
            bits != 0,
    ;
    lemma_bit_at_or_above(bits, 0);
}

/// Two sets have the same members exactly when their masks are equal.
pub proof fn lemma_view_injective(a: PermissionSet, b: PermissionSet)
    ensures
        (a@ == b@) <==> (a.bits == b.bits),
{
    if a.bits != b.bits {
        let (x, y) = (a.bits, b.bits);
        let d = x ^ y;
        assert(d != 0) by (bit_vector)
            requires
                d == x ^ y,
                x != y,
        ;
        lemma_nonzero_has_bit(d);
        let flag = choose|flag: u64| bit_set(d, flag);
        assert(((x >> flag) & 1 == 1) != ((y >> flag) & 1 == 1)) by (bit_vector)
            requires
                d == x ^ y,
                flag < 64,
                (d >> flag) & 1 == 1,
        ;
        assert(a@.contains(flag as nat) != b@.contains(flag as nat));
    }
}

impl PermissionSet {
    /// The set without any flag
    pub fn empty() -> (set: Self)
        ensures
            set.bits == 0,
            set@ == Set::<nat>::empty(),
    {
        let set = PermissionSet { bits: 0 };
        proof {
            assert(forall|flag: u64| !(flag < 64 && (0u64 >> flag) & 1 == 1)) by (bit_vector);
            assert(set@ =~= Set::<nat>::empty());
        }
        set
    }

    /// The set whose mask is `bits`
    pub fn from_bits(bits: u64) -> (set: Self)
        ensures
            set.bits == bits,
    {
        PermissionSet { bits }
    }

    /// The mask of this set
    pub fn bits(&self) -> (bits: u64)
        ensures
            bits == self.bits,
    {
        self.bits
    }

    /// Whether no flag is a member
    pub fn is_empty(&self) -> (empty: bool)
        ensures
            empty == (self.bits == 0),
            empty == (self@ == Set::<nat>::empty()),
    {
        proof {
            lemma_view_injective(*self, PermissionSet { bits: 0 });
            assert(forall|flag: u64| !(flag < 64 && (0u64 >> flag) & 1 == 1)) by (bit_vector);
            assert((PermissionSet { bits: 0 })@ =~= Set::<nat>::empty());
        }
        self.bits == 0
    }

    /// Whether every flag of `other` is a member of this set
    pub fn contains(&self, other: PermissionSet) -> (all: bool)
        ensures
            all == other@.subset_of(self@),
            all == (other.bits & !self.bits == 0),
    {
        let missing = other.difference(*self);
        proof {
            if other@.subset_of(self@) {
                assert(missing@ =~= Set::<nat>::empty());
            } else {
                let flag = choose|flag: nat| other@.contains(flag) && !self@.contains(flag);
                assert(missing@.contains(flag));
            }
        }
        missing.is_empty()
    }

    /// The flags that are members of either set
    pub fn union(self, other: PermissionSet) -> (set: Self)
        ensures
            set.bits == self.bits | other.bits,
            set@ == self@.union(other@),
    {
        let set = PermissionSet { bits: self.bits | other.bits };
        proof {
            let (x, y) = (self.bits, other.bits);
            assert(forall|flag: u64|
                flag < 64 ==> (#[trigger] (((x | y) >> flag) & 1) == 1 <==> ((x >> flag) & 1 == 1
                    || (y >> flag) & 1 == 1))) by (bit_vector);
            assert(set@ =~= self@.union(other@));
        }
        set
    }

    /// The flags that are members of both sets
    pub fn intersection(self, other: PermissionSet) -> (set: Self)
        ensures
            set.bits == self.bits & other.bits,
            set@ == self@.intersect(other@),
    {
        let set = PermissionSet { bits: self.bits & other.bits };
        proof {
            let (x, y) = (self.bits, other.bits);
            assert(forall|flag: u64|
                flag < 64 ==> (#[trigger] (((x & y) >> flag) & 1) == 1 <==> ((x >> flag) & 1 == 1
                    && (y >> flag) & 1 == 1))) by (bit_vector);
            assert(set@ =~= self@.intersect(other@));
        }
        set
    }

    /// The flags that are members of this set and not of `other`
    pub fn difference(self, other: PermissionSet) -> (set: Self)
        ensures
            set.bits == self.bits & !other.bits,
            set@ == self@.difference(other@),
    {
        let set = PermissionSet { bits: self.bits & !other.bits };
        proof {
            let (x, y) = (self.bits, other.bits);
            assert(forall|flag: u64|
                flag < 64 ==> (#[trigger] (((x & !y) >> flag) & 1) == 1 <==> ((x >> flag) & 1 == 1
                    && (y >> flag) & 1 != 1))) by (bit_vector);
            assert(set@ =~= self@.difference(other@));
        }
        set
    }
}

} // verus!
