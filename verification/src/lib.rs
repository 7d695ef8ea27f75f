//! Constant-time primitives: a normalized secret boolean, branchless
//! conditional moves over fixed-width integers, constant-time equality,
//! and an optional value that never reveals its validity through control flow.

use vstd::prelude::*;

mod adapter;
mod choice;
mod ct_eq;
mod ct_option;
mod limb;
mod portable;
mod signed;
mod uint;

pub use choice::Choice;
pub use ct_eq::{eq_flag, lemma_eq_flag_reflexive, lemma_eq_flag_symmetric, CtEq};
pub use ct_option::CtOption;
pub use limb::Limb;
pub use portable::{is_nonzero_u8, is_nonzero_u64};
pub use signed::Int;
pub use uint::Uint;

verus! {

/// A raw, un-normalized condition: zero means false, any nonzero bit
/// pattern means true.
pub type Condition = u8;

/// The capability of overwriting a value with another one, gated on a raw
/// condition, with no branch whose direction depends on the condition or
/// on either value.
pub trait ConditionalMove: Sized {
    /// Overwrite `self` with `value` exactly when `condition` is zero.
    fn conditional_move_zero(&mut self, value: &Self, condition: Condition)
        ensures
            *final(self) == (if condition == 0 {
                *value
            } else {
                *old(self)
            }),
    ;

    /// Overwrite `self` with `value` exactly when `condition` is nonzero.
    fn conditional_move_nonzero(&mut self, value: &Self, condition: Condition)
        ensures
            *final(self) == (if condition != 0 {
                *value
            } else {
                *old(self)
            }),
    ;
}

/// The capability of testing two values for bitwise equality and moving an
/// externally supplied condition into an output slot accordingly, still
/// without a data-dependent branch.
pub trait ConditionalMoveEq {
    /// Write `input` into `*output` exactly when `self` equals `rhs`.
    fn conditional_move_eq(&self, rhs: &Self, input: Condition, output: &mut Condition)
        ensures
            *final(output) == (if self == rhs {
                input
            } else {
                *old(output)
            }),
    ;

    /// Write `input` into `*output` exactly when `self` differs from `rhs`.
    fn conditional_move_ne(&self, rhs: &Self, input: Condition, output: &mut Condition)
        ensures
            *final(output) == (if self != rhs {
                input
            } else {
                *old(output)
            }),
    ;
}

} // verus!
