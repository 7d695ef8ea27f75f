//! One machine word with a branchless bitwise algebra: the atomic operand
//! a multi-word integer layer combines positionally.

use vstd::prelude::*;

verus! {

/// A single machine word.  The algebra below is total and closed: there
/// are no invalid states and no error conditions.
#[derive(Clone, Copy, Debug, Hash)]
pub struct Limb(pub u64);

impl Limb {
    /// Bitwise conjunction of two words.
    #[inline]
    pub fn bitand(self, rhs: Self) -> (r: Self)
        ensures
            r.0 == self.0 & rhs.0,
    {
        Self(self.0 & rhs.0)
    }

    /// Bitwise disjunction of two words.
    #[inline]
    pub fn bitor(self, rhs: Self) -> (r: Self)
        ensures
            r.0 == self.0 | rhs.0,
    {
        Self(self.0 | rhs.0)
    }

    /// Bitwise exclusive or of two words.
    #[inline]
    pub fn bitxor(self, rhs: Self) -> (r: Self)
        ensures
            r.0 == self.0 ^ rhs.0,
    {
        Self(self.0 ^ rhs.0)
    }

    /// Bitwise complement of a word.
    #[inline]
    pub fn not(self) -> (r: Self)
        ensures
            r.0 == !self.0,
    {
        Self(!self.0)
    }
}

} // verus!
