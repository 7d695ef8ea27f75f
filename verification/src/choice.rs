//! The canonical secret boolean flag and its bitwise algebra.

use vstd::prelude::*;

verus! {

/// A normalized secret boolean: exactly one bit of state, restricted to
/// {0, 1} by construction.  Combined only through bitwise algebra, never
/// through short-circuiting boolean operators, so that no branch depends
/// on its value.
#[derive(Clone, Copy, Debug)]
pub struct Choice(pub(crate) u8);

impl View for Choice {
    type V = u8;

    closed spec fn view(&self) -> u8 {
        self.0
    }
}

/// Relies on core::hint::black_box: an identity function that only serves
/// as a compiler optimization barrier; it returns its argument unchanged.
pub assume_specification<T>[ core::hint::black_box::<T> ](dummy: T) -> (r: T)
    ensures
        r == dummy,
;

impl Choice {
    /// The true flag.
    #[inline]
    pub fn true_value() -> (r: Self)
        ensures
            r@ == 1,
    {
        Self(1)
    }

    /// The false flag.
    #[inline]
    pub fn false_value() -> (r: Self)
        ensures
            r@ == 0,
    {
        Self(0)
    }

    /// Bitwise conjunction of two flags.
    #[inline]
    pub fn and(self, rhs: Self) -> (r: Self)
        ensures
            r@ == self@ & rhs@,
    {
        Self(self.0 & rhs.0)
    }

    /// Bitwise disjunction of two flags.
    #[inline]
    pub fn or(self, rhs: Self) -> (r: Self)
        ensures
            r@ == self@ | rhs@,
    {
        Self(self.0 | rhs.0)
    }

    /// Bitwise exclusive or of two flags.
    #[inline]
    pub fn xor(self, rhs: Self) -> (r: Self)
        ensures
            r@ == self@ ^ rhs@,
    {
        Self(self.0 ^ rhs.0)
    }

    /// Negation, computed as exclusive or with the true flag.
    #[inline]
    pub fn not(self) -> (r: Self)
        ensures
            r@ == self@ ^ 1,
    {
        self.xor(Self(1))
    }

    /// Inequality of two flags, computed as exclusive or.
    #[inline]
    pub fn ne(self, rhs: Self) -> (r: Self)
        ensures
            r@ == self@ ^ rhs@,
    {
        self.xor(rhs)
    }

    /// Equality of two flags, the negation of inequality.
    #[inline]
    pub fn eq(self, rhs: Self) -> (r: Self)
        ensures
            r@ == (self@ ^ rhs@) ^ 1,
    {
        self.ne(rhs).not()
    }

    /// Normalize a raw byte to a flag by keeping its lowest bit.
    #[inline]
    pub fn from_u8(value: u8) -> (r: Self)
        ensures
            r@ == value & 1,
            r@ == 0 || r@ == 1,
    {
        proof {
            assert(value & 1 == 0 || value & 1 == 1) by (bit_vector);
        }
        Self(value & 0x01)
    }

    /// Normalize a raw 16-bit value to a flag by keeping its lowest bit.
    #[inline]
    pub fn from_u16(value: u16) -> (r: Self)
        ensures
            r@ == (value & 1) as u8,
            r@ == 0 || r@ == 1,
    {
        proof {
            assert(value & 1 == 0 || value & 1 == 1) by (bit_vector);
        }
        Self((value & 0x01) as u8)
    }

    /// Normalize a raw 32-bit value to a flag by keeping its lowest bit.
    #[inline]
    pub fn from_u32(value: u32) -> (r: Self)
        ensures
            r@ == (value & 1) as u8,
            r@ == 0 || r@ == 1,
    {
        proof {
            assert(value & 1 == 0 || value & 1 == 1) by (bit_vector);
        }
        Self((value & 0x01) as u8)
    }

    /// Normalize a raw 64-bit value to a flag by keeping its lowest bit.
    #[inline]
    pub fn from_u64(value: u64) -> (r: Self)
        ensures
            r@ == (value & 1) as u8,
            r@ == 0 || r@ == 1,
    {
        proof {
            assert(value & 1 == 0 || value & 1 == 1) by (bit_vector);
        }
        Self((value & 0x01) as u8)
    }

    /// Normalize a raw 128-bit value to a flag by keeping its lowest bit.
    #[inline]
    pub fn from_u128(value: u128) -> (r: Self)
        ensures
            r@ == (value & 1) as u8,
            r@ == 0 || r@ == 1,
    {
        proof {
            assert(value & 1 == 0 || value & 1 == 1) by (bit_vector);
        }
        Self((value & 0x01) as u8)
    }

    /// Extract the flag's bit, behind an optimization barrier.
    pub fn to_u8(self) -> (r: u8)
        ensures
            r == self@,
    {
        core::hint::black_box(self.0)
    }

    /// Extract the flag as a host boolean, behind an optimization barrier.
    ///
    /// The branch a caller takes on the result is the sanctioned place
    /// where secrecy ends.
    pub fn to_bool(self) -> (r: bool)
        ensures
            r == (self@ != 0),
    {
        self.to_u8() != 0
    }

    /// Extract the flag's bit without an optimization barrier.
    pub fn vt_to_u8(self) -> (r: u8)
        ensures
            r == self@,
    {
        self.0
    }

    /// Extract the flag as a host boolean without an optimization barrier.
    pub fn vt_to_bool(self) -> (r: bool)
        ensures
            r == (self@ != 0),
    {
        self.0 != 0
    }
}

} // verus!
