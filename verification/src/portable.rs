//! Branchless conditional-move realizations for the supported integer
//! widths.
//!
//! The canonical realization works on one 64-bit word: the raw condition is
//! normalized to a single bit, the bit is stretched into an all-zero or
//! all-one mask by a wraparound subtraction, and the mask selects one of the
//! two operands entirely.  Narrower widths are promoted to a wider audited
//! core and truncated back (8-bit to 16-bit, 16- and 32-bit to 64-bit);
//! 128-bit values are split into two 64-bit halves that are both always
//! moved with the same condition; signed widths are reinterpreted as the
//! unsigned width of the same size.

use vstd::prelude::*;

use crate::{Condition, ConditionalMove, ConditionalMoveEq};

verus! {

/// Normalize a raw 8-bit condition to a single bit without a branch:
/// the result is 0 when the condition is 0, and 1 otherwise.
pub fn is_nonzero_u8(value: u8) -> (r: u8)
    ensures
        r == 0 || r == 1,
        (r == 0) <==> (value == 0),
{
    let neg = 0u8.wrapping_sub(value);
    proof {
        assert((value | neg) >> 7 == (if value == 0 {
            0u8
        } else {
            1u8
        })) by (bit_vector)
            requires
                neg == (if value == 0 {
                    0u8
                } else {
                    (256 - value) as u8
                }),
        ;
    }
    (value | neg) >> 7
}

/// Normalize a raw 64-bit condition to a single bit without a branch:
/// the result is 0 when the condition is 0, and 1 otherwise.
pub fn is_nonzero_u64(value: u64) -> (r: u64)
    ensures
        r == 0 || r == 1,
        (r == 0) <==> (value == 0),
{
    let neg = 0u64.wrapping_sub(value);
    proof {
        assert((value | neg) >> 63 == (if value == 0 {
            0u64
        } else {
            1u64
        })) by (bit_vector)
            requires
                neg == (if value == 0 {
                    0u64
                } else {
                    (0x1_0000_0000_0000_0000 - value) as u64
                }),
        ;
    }
    (value | neg) >> 63
}

/// An all-zero mask selects `y` entirely; an all-one mask selects `x`.
proof fn lemma_mask_select_u64(x: u64, y: u64, m: u64)
    requires
        m == 0 || m == 0xffff_ffff_ffff_ffffu64,
    ensures
        (x & m) | (y & !m) == (if m == 0 {
            y
        } else {
            x
        }),
{
    assert((x & m) | (y & !m) == (if m == 0 {
        y
    } else {
        x
    })) by (bit_vector)
        requires
            m == 0 || m == 0xffff_ffff_ffff_ffffu64,
    ;
}

/// Exclusive or with 1 flips a single-bit value.
proof fn lemma_flip_bit(b: u8)
    requires
        b == 0 || b == 1,
    ensures
        b ^ 1 == (if b == 0 {
            1u8
        } else {
            0u8
        }),
        1 ^ b == (if b == 0 {
            1u8
        } else {
            0u8
        }),
{
    assert(b ^ 1 == (if b == 0 {
        1u8
    } else {
        0u8
    }) && 1 ^ b == (if b == 0 {
        1u8
    } else {
        0u8
    })) by (bit_vector)
        requires
            b == 0 || b == 1,
    ;
}

impl ConditionalMove for u64 {
    #[inline]
    fn conditional_move_zero(&mut self, value: &Self, condition: Condition) {
        let b = is_nonzero_u8(condition);
        let mask = core::hint::black_box(((1 ^ b) as u64).wrapping_sub(1));
        proof {
            lemma_flip_bit(b);
            lemma_mask_select_u64(*self, *value, mask);
        }
        *self = (*self & mask) | (*value & !mask);
    }

    #[inline]
    fn conditional_move_nonzero(&mut self, value: &Self, condition: Condition) {
        let b = is_nonzero_u8(condition);
        let mask = core::hint::black_box((b as u64).wrapping_sub(1));
        proof {
            lemma_mask_select_u64(*self, *value, mask);
        }
        *self = (*self & mask) | (*value & !mask);
    }
}

impl ConditionalMove for u16 {
    #[inline]
    fn conditional_move_zero(&mut self, value: &Self, condition: Condition) {
        let mut flag: u64 = *self as u64;
        flag.conditional_move_zero(&(*value as u64), condition);
        *self = flag as u16;
    }

    #[inline]
    fn conditional_move_nonzero(&mut self, value: &Self, condition: Condition) {
        let mut flag: u64 = *self as u64;
        flag.conditional_move_nonzero(&(*value as u64), condition);
        *self = flag as u16;
    }
}

impl ConditionalMove for u32 {
    #[inline]
    fn conditional_move_zero(&mut self, value: &Self, condition: Condition) {
        let mut flag: u64 = *self as u64;
        flag.conditional_move_zero(&(*value as u64), condition);
        *self = flag as u32;
    }

    #[inline]
    fn conditional_move_nonzero(&mut self, value: &Self, condition: Condition) {
        let mut flag: u64 = *self as u64;
        flag.conditional_move_nonzero(&(*value as u64), condition);
        *self = flag as u32;
    }
}

/// A 16-bit value below 0x100 is unchanged by masking its low byte.
proof fn lemma_low_byte(x: u16)
    requires
        x < 0x100,
    ensures
        x & 0xff == x,
{
    assert(x & 0xff == x) by (bit_vector)
        requires
            x < 0x100,
    ;
}

impl ConditionalMove for u8 {
    #[inline]
    fn conditional_move_zero(&mut self, value: &Self, condition: Condition) {
        let mut flag: u16 = *self as u16;
        flag.conditional_move_zero(&(*value as u16), condition);
        proof {
            lemma_low_byte(flag);
        }
        *self = (flag & 0xff) as u8;
    }

    #[inline]
    fn conditional_move_nonzero(&mut self, value: &Self, condition: Condition) {
        let mut flag: u16 = *self as u16;
        flag.conditional_move_nonzero(&(*value as u16), condition);
        proof {
            lemma_low_byte(flag);
        }
        *self = (flag & 0xff) as u8;
    }
}

/// Splitting a 128-bit value into two 64-bit halves and recombining them
/// gives the value back.
proof fn lemma_u128_halves(x: u128)
    ensures
        ((((x >> 64) as u64) as u128) << 64) | (((x & (0xffff_ffff_ffff_ffffu64 as u128)) as u64) as u128) == x,
{
    assert(((((x >> 64) as u64) as u128) << 64) | (((x & (0xffff_ffff_ffff_ffffu64 as u128)) as u64) as u128) == x)
        by (bit_vector);
}

impl ConditionalMove for u128 {
    #[inline]
    fn conditional_move_zero(&mut self, value: &Self, condition: Condition) {
        let mut hi: u64 = (*self >> 64) as u64;
        let mut lo: u64 = (*self & (u64::MAX as u128)) as u64;
        proof {
            lemma_u128_halves(*self);
            lemma_u128_halves(*value);
        }
        hi.conditional_move_zero(&((*value >> 64) as u64), condition);
        lo.conditional_move_zero(&((*value & (u64::MAX as u128)) as u64), condition);
        *self = ((hi as u128) << 64) | (lo as u128);
    }

    #[inline]
    fn conditional_move_nonzero(&mut self, value: &Self, condition: Condition) {
        let mut hi: u64 = (*self >> 64) as u64;
        let mut lo: u64 = (*self & (u64::MAX as u128)) as u64;
        proof {
            lemma_u128_halves(*self);
            lemma_u128_halves(*value);
        }
        hi.conditional_move_nonzero(&((*value >> 64) as u64), condition);
        lo.conditional_move_nonzero(&((*value & (u64::MAX as u128)) as u64), condition);
        *self = ((hi as u128) << 64) | (lo as u128);
    }
}

/// Two 64-bit values agree exactly when their exclusive or is zero.
proof fn lemma_xor_zero_u64(x: u64, y: u64)
    ensures
        (x ^ y == 0) <==> (x == y),
{
    assert((x ^ y == 0) <==> (x == y)) by (bit_vector);
}

impl ConditionalMoveEq for u64 {
    #[inline]
    fn conditional_move_eq(&self, rhs: &Self, input: Condition, output: &mut Condition) {
        proof {
            lemma_xor_zero_u64(*self, *rhs);
        }
        let flag = is_nonzero_u64(*self ^ *rhs) as u8;
        proof {
            lemma_flip_bit(flag);
        }
        output.conditional_move_nonzero(&input, core::hint::black_box(flag ^ 1));
    }

    #[inline]
    fn conditional_move_ne(&self, rhs: &Self, input: Condition, output: &mut Condition) {
        proof {
            lemma_xor_zero_u64(*self, *rhs);
        }
        let flag = is_nonzero_u64(*self ^ *rhs) as u8;
        output.conditional_move_nonzero(&input, core::hint::black_box(flag));
    }
}

impl ConditionalMoveEq for u16 {
    #[inline]
    fn conditional_move_eq(&self, rhs: &Self, input: Condition, output: &mut Condition) {
        (*self as u64).conditional_move_eq(&(*rhs as u64), input, output);
    }

    #[inline]
    fn conditional_move_ne(&self, rhs: &Self, input: Condition, output: &mut Condition) {
        (*self as u64).conditional_move_ne(&(*rhs as u64), input, output);
    }
}

impl ConditionalMoveEq for u32 {
    #[inline]
    fn conditional_move_eq(&self, rhs: &Self, input: Condition, output: &mut Condition) {
        (*self as u64).conditional_move_eq(&(*rhs as u64), input, output);
    }

    #[inline]
    fn conditional_move_ne(&self, rhs: &Self, input: Condition, output: &mut Condition) {
        (*self as u64).conditional_move_ne(&(*rhs as u64), input, output);
    }
}

impl ConditionalMoveEq for u8 {
    #[inline]
    fn conditional_move_eq(&self, rhs: &Self, input: Condition, output: &mut Condition) {
        (*self as u16).conditional_move_eq(&(*rhs as u16), input, output);
    }

    #[inline]
    fn conditional_move_ne(&self, rhs: &Self, input: Condition, output: &mut Condition) {
        (*self as u16).conditional_move_ne(&(*rhs as u16), input, output);
    }
}

impl ConditionalMoveEq for u128 {
    /// The running-flag realization: the flag starts at the equality
    /// identity and is cleared by a half that differs; the final flag
    /// state gates the caller's output.
    #[inline]
    fn conditional_move_eq(&self, rhs: &Self, input: Condition, output: &mut Condition) {
        let hi = (*self >> 64) as u64;
        let lo = (*self & (u64::MAX as u128)) as u64;
        let rhs_hi = (*rhs >> 64) as u64;
        let rhs_lo = (*rhs & (u64::MAX as u128)) as u64;
        proof {
            lemma_u128_halves(*self);
            lemma_u128_halves(*rhs);
        }
        let mut flag: Condition = 1;
        hi.conditional_move_ne(&rhs_hi, 0, &mut flag);
        lo.conditional_move_ne(&rhs_lo, 0, &mut flag);
        flag.conditional_move_eq(&1, input, output);
    }

    #[inline]
    fn conditional_move_ne(&self, rhs: &Self, input: Condition, output: &mut Condition) {
        let hi = (*self >> 64) as u64;
        let lo = (*self & (u64::MAX as u128)) as u64;
        let rhs_hi = (*rhs >> 64) as u64;
        let rhs_lo = (*rhs & (u64::MAX as u128)) as u64;
        proof {
            lemma_u128_halves(*self);
            lemma_u128_halves(*rhs);
        }
        let mut flag: Condition = 1;
        hi.conditional_move_ne(&rhs_hi, 0, &mut flag);
        lo.conditional_move_ne(&rhs_lo, 0, &mut flag);
        flag.conditional_move_eq(&0, input, output);
    }
}

/// Reinterpreting a signed value as the unsigned width of the same size
/// and back returns the value.
proof fn lemma_i8_roundtrip(x: i8)
    ensures
        ((x as u8) as i8) == x,
{
    assert(((x as u8) as i8) == x) by (bit_vector);
}

/// Reinterpreting a signed value as the unsigned width of the same size
/// and back returns the value.
proof fn lemma_i16_roundtrip(x: i16)
    ensures
        ((x as u16) as i16) == x,
{
    assert(((x as u16) as i16) == x) by (bit_vector);
}

/// Reinterpreting a signed value as the unsigned width of the same size
/// and back returns the value.
proof fn lemma_i32_roundtrip(x: i32)
    ensures
        ((x as u32) as i32) == x,
{
    assert(((x as u32) as i32) == x) by (bit_vector);
}

/// Reinterpreting a signed value as the unsigned width of the same size
/// and back returns the value.
proof fn lemma_i64_roundtrip(x: i64)
    ensures
        ((x as u64) as i64) == x,
{
    assert(((x as u64) as i64) == x) by (bit_vector);
}

/// Reinterpreting a signed value as the unsigned width of the same size
/// and back returns the value.
proof fn lemma_i128_roundtrip(x: i128)
    ensures
        ((x as u128) as i128) == x,
{
    assert(((x as u128) as i128) == x) by (bit_vector);
}

impl ConditionalMove for i8 {
    #[inline]
    fn conditional_move_zero(&mut self, value: &Self, condition: Condition) {
        let mut flag: u8 = *self as u8;
        flag.conditional_move_zero(&(*value as u8), condition);
        proof {
            lemma_i8_roundtrip(*self);
            lemma_i8_roundtrip(*value);
        }
        *self = flag as i8;
    }

    #[inline]
    fn conditional_move_nonzero(&mut self, value: &Self, condition: Condition) {
        let mut flag: u8 = *self as u8;
        flag.conditional_move_nonzero(&(*value as u8), condition);
        proof {
            lemma_i8_roundtrip(*self);
            lemma_i8_roundtrip(*value);
        }
        *self = flag as i8;
    }
}

impl ConditionalMove for i16 {
    #[inline]
    fn conditional_move_zero(&mut self, value: &Self, condition: Condition) {
        let mut flag: u16 = *self as u16;
        flag.conditional_move_zero(&(*value as u16), condition);
        proof {
            lemma_i16_roundtrip(*self);
            lemma_i16_roundtrip(*value);
        }
        *self = flag as i16;
    }

    #[inline]
    fn conditional_move_nonzero(&mut self, value: &Self, condition: Condition) {
        let mut flag: u16 = *self as u16;
        flag.conditional_move_nonzero(&(*value as u16), condition);
        proof {
            lemma_i16_roundtrip(*self);
            lemma_i16_roundtrip(*value);
        }
        *self = flag as i16;
    }
}

impl ConditionalMove for i32 {
    #[inline]
    fn conditional_move_zero(&mut self, value: &Self, condition: Condition) {
        let mut flag: u32 = *self as u32;
        flag.conditional_move_zero(&(*value as u32), condition);
        proof {
            lemma_i32_roundtrip(*self);
            lemma_i32_roundtrip(*value);
        }
        *self = flag as i32;
    }

    #[inline]
    fn conditional_move_nonzero(&mut self, value: &Self, condition: Condition) {
        let mut flag: u32 = *self as u32;
        flag.conditional_move_nonzero(&(*value as u32), condition);
        proof {
            lemma_i32_roundtrip(*self);
            lemma_i32_roundtrip(*value);
        }
        *self = flag as i32;
    }
}

impl ConditionalMove for i64 {
    #[inline]
    fn conditional_move_zero(&mut self, value: &Self, condition: Condition) {
        let mut flag: u64 = *self as u64;
        flag.conditional_move_zero(&(*value as u64), condition);
        proof {
            lemma_i64_roundtrip(*self);
            lemma_i64_roundtrip(*value);
        }
        *self = flag as i64;
    }

    #[inline]
    fn conditional_move_nonzero(&mut self, value: &Self, condition: Condition) {
        let mut flag: u64 = *self as u64;
        flag.conditional_move_nonzero(&(*value as u64), condition);
        proof {
            lemma_i64_roundtrip(*self);
            lemma_i64_roundtrip(*value);
        }
        *self = flag as i64;
    }
}

impl ConditionalMove for i128 {
    #[inline]
    fn conditional_move_zero(&mut self, value: &Self, condition: Condition) {
        let mut flag: u128 = *self as u128;
        flag.conditional_move_zero(&(*value as u128), condition);
        proof {
            lemma_i128_roundtrip(*self);
            lemma_i128_roundtrip(*value);
        }
        *self = flag as i128;
    }

    #[inline]
    fn conditional_move_nonzero(&mut self, value: &Self, condition: Condition) {
        let mut flag: u128 = *self as u128;
        flag.conditional_move_nonzero(&(*value as u128), condition);
        proof {
            lemma_i128_roundtrip(*self);
            lemma_i128_roundtrip(*value);
        }
        *self = flag as i128;
    }
}

impl ConditionalMoveEq for i8 {
    #[inline]
    fn conditional_move_eq(&self, rhs: &Self, input: Condition, output: &mut Condition) {
        proof {
            lemma_i8_roundtrip(*self);
            lemma_i8_roundtrip(*rhs);
        }
        (*self as u8).conditional_move_eq(&(*rhs as u8), input, output);
    }

    #[inline]
    fn conditional_move_ne(&self, rhs: &Self, input: Condition, output: &mut Condition) {
        proof {
            lemma_i8_roundtrip(*self);
            lemma_i8_roundtrip(*rhs);
        }
        (*self as u8).conditional_move_ne(&(*rhs as u8), input, output);
    }
}

impl ConditionalMoveEq for i16 {
    #[inline]
    fn conditional_move_eq(&self, rhs: &Self, input: Condition, output: &mut Condition) {
        proof {
            lemma_i16_roundtrip(*self);
            lemma_i16_roundtrip(*rhs);
        }
        (*self as u16).conditional_move_eq(&(*rhs as u16), input, output);
    }

    #[inline]
    fn conditional_move_ne(&self, rhs: &Self, input: Condition, output: &mut Condition) {
        proof {
            lemma_i16_roundtrip(*self);
            lemma_i16_roundtrip(*rhs);
        }
        (*self as u16).conditional_move_ne(&(*rhs as u16), input, output);
    }
}

impl ConditionalMoveEq for i32 {
    #[inline]
    fn conditional_move_eq(&self, rhs: &Self, input: Condition, output: &mut Condition) {
        proof {
            lemma_i32_roundtrip(*self);
            lemma_i32_roundtrip(*rhs);
        }
        (*self as u32).conditional_move_eq(&(*rhs as u32), input, output);
    }

    #[inline]
    fn conditional_move_ne(&self, rhs: &Self, input: Condition, output: &mut Condition) {
        proof {
            lemma_i32_roundtrip(*self);
            lemma_i32_roundtrip(*rhs);
        }
        (*self as u32).conditional_move_ne(&(*rhs as u32), input, output);
    }
}

impl ConditionalMoveEq for i64 {
    #[inline]
    fn conditional_move_eq(&self, rhs: &Self, input: Condition, output: &mut Condition) {
        proof {
            lemma_i64_roundtrip(*self);
            lemma_i64_roundtrip(*rhs);
        }
        (*self as u64).conditional_move_eq(&(*rhs as u64), input, output);
    }

    #[inline]
    fn conditional_move_ne(&self, rhs: &Self, input: Condition, output: &mut Condition) {
        proof {
            lemma_i64_roundtrip(*self);
            lemma_i64_roundtrip(*rhs);
        }
        (*self as u64).conditional_move_ne(&(*rhs as u64), input, output);
    }
}

impl ConditionalMoveEq for i128 {
    #[inline]
    fn conditional_move_eq(&self, rhs: &Self, input: Condition, output: &mut Condition) {
        proof {
            lemma_i128_roundtrip(*self);
            lemma_i128_roundtrip(*rhs);
        }
        (*self as u128).conditional_move_eq(&(*rhs as u128), input, output);
    }

    #[inline]
    fn conditional_move_ne(&self, rhs: &Self, input: Condition, output: &mut Condition) {
        proof {
            lemma_i128_roundtrip(*self);
            lemma_i128_roundtrip(*rhs);
        }
        (*self as u128).conditional_move_ne(&(*rhs as u128), input, output);
    }
}

/// Two slices are equal exactly when their lengths agree and their
/// elements agree pairwise.
pub(crate) proof fn lemma_slice_eq<T>(a: &[T], b: &[T])
    ensures
        (a == b) <==> (a@.len() == b@.len() && (forall|i: int|
            0 <= i < a@.len() ==> a@[i] == b@[i])),
{
    if a@.len() == b@.len() && (forall|i: int| 0 <= i < a@.len() ==> a@[i] == b@[i]) {
        assert(a =~= b);
    }
}

impl<T: ConditionalMoveEq> ConditionalMoveEq for [T] {
    fn conditional_move_eq(&self, rhs: &Self, input: Condition, output: &mut Condition) {
        let mut flag: Condition = 1;
        self.conditional_move_ne(rhs, 0, &mut flag);
        flag.conditional_move_eq(&1, input, output);
    }

    /// Any mismatching pair re-asserts the same outcome, so iteration
    /// order and repeated writes do not affect the result.
    fn conditional_move_ne(&self, rhs: &Self, input: Condition, output: &mut Condition) {
        proof {
            lemma_slice_eq(self, rhs);
        }
        if self.len() != rhs.len() {
            *output = input;
        } else {
            let n = self.len();
            let mut out: Condition = *output;
            let mut i: usize = 0;
            while i < n
                invariant
                    n == self@.len(),
                    n == rhs@.len(),
                    0 <= i <= n,
                    out == (if (exists|j: int| 0 <= j < i && self@[j] != rhs@[j]) {
                        input
                    } else {
                        *old(output)
                    }),
                decreases n - i,
            {
                self[i].conditional_move_ne(&rhs[i], input, &mut out);
                i = i + 1;
            }
            *output = out;
        }
    }
}

} // verus!
