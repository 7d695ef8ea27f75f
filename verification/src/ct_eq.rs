//! Constant-time equality, producing a [`Choice`] instead of a host
//! boolean.
//!
//! Scalars are tested through the conditional-move capability; fixed arrays
//! and variable-length sequences combine a public length comparison with an
//! accumulate-then-gate fold over elements, so the work done is a function
//! of the lengths only, never of where a mismatch occurs.

use vstd::prelude::*;

use crate::portable::lemma_slice_eq;
use crate::{Choice, ConditionalMoveEq};

verus! {

/// The flag bit an equality test owes its caller: 1 when the operands are
/// equal, 0 when they differ.
pub open spec fn eq_flag<T: ?Sized>(a: &T, b: &T) -> u8 {
    if a == b {
        1u8
    } else {
        0u8
    }
}

/// Law: every value equals itself, so testing a value against itself
/// yields the true flag.
pub proof fn lemma_eq_flag_reflexive<T: ?Sized>(a: &T)
    ensures
        eq_flag(a, a) == 1,
{
}

/// Law: equality does not depend on the order of its operands, so the
/// flags produced by the two orders agree.
pub proof fn lemma_eq_flag_symmetric<T: ?Sized>(a: &T, b: &T)
    ensures
        eq_flag(a, b) == eq_flag(b, a),
{
}

/// An `Eq`-like capability that produces a [`Choice`] instead of a `bool`.
pub trait CtEq {
    /// The true flag exactly when `self` equals `rhs`, computed without a
    /// data-dependent branch.
    fn ct_eq(&self, rhs: &Self) -> (r: Choice)
        ensures
            r@ == eq_flag(self, rhs),
    ;

    /// The true flag exactly when `self` differs from `rhs`.
    fn ct_ne(&self, rhs: &Self) -> (r: Choice)
        ensures
            r@ == (if self == rhs {
                0u8
            } else {
                1u8
            }),
    {
        proof {
            lemma_single_bit_ops(0, 0);
            lemma_single_bit_ops(1, 1);
        }
        self.ct_eq(rhs).not()
    }
}

/// Conjunction and exclusive or evaluated on single-bit values.
proof fn lemma_single_bit_ops(a: u8, b: u8)
    requires
        a == 0 || a == 1,
        b == 0 || b == 1,
    ensures
        a & b == (if a == 1 && b == 1 {
            1u8
        } else {
            0u8
        }),
        a ^ 1 == (if a == 0 {
            1u8
        } else {
            0u8
        }),
        a & 1 == a,
{
    assert(a & b == (if a == 1 && b == 1 {
        1u8
    } else {
        0u8
    }) && a ^ 1 == (if a == 0 {
        1u8
    } else {
        0u8
    }) && a & 1 == a) by (bit_vector)
        requires
            a == 0 || a == 1,
            b == 0 || b == 1,
    ;
}

/// Build a flag from a bit that the conditional-move capability produced.
fn choice_from_bit(bit: u8) -> (r: Choice)
    requires
        bit == 0 || bit == 1,
    ensures
        r@ == bit,
{
    proof {
        lemma_single_bit_ops(bit, bit);
    }
    Choice::from_u8(bit)
}

impl CtEq for u8 {
    #[inline]
    fn ct_eq(&self, rhs: &Self) -> (r: Choice) {
        let mut bit: u8 = 0;
        self.conditional_move_eq(rhs, 1, &mut bit);
        choice_from_bit(bit)
    }
}

impl CtEq for u16 {
    #[inline]
    fn ct_eq(&self, rhs: &Self) -> (r: Choice) {
        let mut bit: u8 = 0;
        self.conditional_move_eq(rhs, 1, &mut bit);
        choice_from_bit(bit)
    }
}

impl CtEq for u32 {
    #[inline]
    fn ct_eq(&self, rhs: &Self) -> (r: Choice) {
        let mut bit: u8 = 0;
        self.conditional_move_eq(rhs, 1, &mut bit);
        choice_from_bit(bit)
    }
}

impl CtEq for u64 {
    #[inline]
    fn ct_eq(&self, rhs: &Self) -> (r: Choice) {
        let mut bit: u8 = 0;
        self.conditional_move_eq(rhs, 1, &mut bit);
        choice_from_bit(bit)
    }
}

impl CtEq for u128 {
    #[inline]
    fn ct_eq(&self, rhs: &Self) -> (r: Choice) {
        let mut bit: u8 = 0;
        self.conditional_move_eq(rhs, 1, &mut bit);
        choice_from_bit(bit)
    }
}

impl CtEq for i8 {
    #[inline]
    fn ct_eq(&self, rhs: &Self) -> (r: Choice) {
        let mut bit: u8 = 0;
        self.conditional_move_eq(rhs, 1, &mut bit);
        choice_from_bit(bit)
    }
}

impl CtEq for i16 {
    #[inline]
    fn ct_eq(&self, rhs: &Self) -> (r: Choice) {
        let mut bit: u8 = 0;
        self.conditional_move_eq(rhs, 1, &mut bit);
        choice_from_bit(bit)
    }
}

impl CtEq for i32 {
    #[inline]
    fn ct_eq(&self, rhs: &Self) -> (r: Choice) {
        let mut bit: u8 = 0;
        self.conditional_move_eq(rhs, 1, &mut bit);
        choice_from_bit(bit)
    }
}

impl CtEq for i64 {
    #[inline]
    fn ct_eq(&self, rhs: &Self) -> (r: Choice) {
        let mut bit: u8 = 0;
        self.conditional_move_eq(rhs, 1, &mut bit);
        choice_from_bit(bit)
    }
}

impl CtEq for i128 {
    #[inline]
    fn ct_eq(&self, rhs: &Self) -> (r: Choice) {
        let mut bit: u8 = 0;
        self.conditional_move_eq(rhs, 1, &mut bit);
        choice_from_bit(bit)
    }
}

impl CtEq for usize {
    /// A pointer-sized value fits in 64 bits on every supported target.
    fn ct_eq(&self, rhs: &Self) -> (r: Choice) {
        (*self as u64).ct_eq(&(*rhs as u64))
    }
}

impl CtEq for isize {
    /// A pointer-sized value fits in 64 bits on every supported target.
    fn ct_eq(&self, rhs: &Self) -> (r: Choice) {
        (*self as i64).ct_eq(&(*rhs as i64))
    }
}

/// Encode a three-valued ordering as a signed byte.
fn ordering_to_i8(o: core::cmp::Ordering) -> (r: i8)
    ensures
        r == (match o {
            core::cmp::Ordering::Less => -1i8,
            core::cmp::Ordering::Equal => 0i8,
            core::cmp::Ordering::Greater => 1i8,
        }),
{
    match o {
        core::cmp::Ordering::Less => -1,
        core::cmp::Ordering::Equal => 0,
        core::cmp::Ordering::Greater => 1,
    }
}

impl CtEq for core::cmp::Ordering {
    #[inline]
    fn ct_eq(&self, rhs: &Self) -> (r: Choice) {
        let a = ordering_to_i8(*self);
        let b = ordering_to_i8(*rhs);
        a.ct_eq(&b)
    }
}

impl<T: CtEq> CtEq for [T] {
    /// The accumulate-then-gate fold: the accumulator starts from the
    /// public length comparison and conjoins every element pair's result;
    /// the fold always visits the smaller length's worth of pairs.
    fn ct_eq(&self, rhs: &Self) -> (r: Choice) {
        proof {
            lemma_slice_eq(self, rhs);
        }
        let mut flag = self.len().ct_eq(&rhs.len());
        let n = if self.len() < rhs.len() {
            self.len()
        } else {
            rhs.len()
        };
        let mut i: usize = 0;
        while i < n
            invariant
                n <= self@.len(),
                n <= rhs@.len(),
                self@.len() == rhs@.len() ==> n == self@.len(),
                0 <= i <= n,
                flag@ == (if self@.len() == rhs@.len() && (forall|j: int|
                    0 <= j < i ==> self@[j] == rhs@[j]) {
                    1u8
                } else {
                    0u8
                }),
            decreases n - i,
        {
            let e = self[i].ct_eq(&rhs[i]);
            proof {
                lemma_single_bit_ops(flag@, e@);
            }
            flag = flag.and(e);
            i = i + 1;
        }
        flag
    }
}

impl<T: CtEq, const N: usize> CtEq for [T; N] {
    #[inline]
    fn ct_eq(&self, rhs: &Self) -> (r: Choice) {
        let sa = self.as_slice();
        let sb = rhs.as_slice();
        let r = sa.ct_eq(sb);
        proof {
            lemma_slice_eq(sa, sb);
            if sa == sb {
                assert(*self =~= *rhs);
            }
            if *self == *rhs {
                assert(sa =~= sb);
            }
        }
        r
    }
}

} // verus!
