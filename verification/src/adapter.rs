//! Boundary adapter to the `subtle` toolkit: bit-for-bit conversions
//! between this crate's flag and optional value and their `subtle`
//! equivalents.  The adapter is a one-field reinterpretation and stands
//! outside the secret-safe core.

use vstd::prelude::*;

use crate::Choice;

use subtle::Choice as SubtleChoice;
use subtle::CtOption as SubtleCtOption;

verus! {

#[verifier::external_type_specification]
#[verifier::external_body]
pub struct ExSubtleChoice(SubtleChoice);

#[verifier::external_type_specification]
#[verifier::external_body]
#[verifier::reject_recursive_types(T)]
pub struct ExSubtleCtOption<T>(SubtleCtOption<T>);

/// Relies on subtle::Choice::unwrap_u8: it reveals the wrapped byte, which
/// subtle's constructors keep at 0 or 1.
#[verifier::external_body]
pub(crate) fn subtle_choice_unwrap_u8(value: &subtle::Choice) -> (r: u8)
    ensures
        r == 0 || r == 1,
{
    value.unwrap_u8()
}

/// Relies on From<u8> for subtle::Choice, which demands a byte that is
/// already 0 or 1.
#[verifier::external_body]
pub(crate) fn subtle_choice_from_u8(bit: u8) -> (r: subtle::Choice)
    requires
        bit == 0 || bit == 1,
{
    subtle::Choice::from(bit)
}

/// Relies on subtle::CtOption::new: it pairs the value with the flag.
#[verifier::external_body]
pub(crate) fn subtle_ct_option_new<T>(value: T, is_some: subtle::Choice) -> subtle::CtOption<T> {
    subtle::CtOption::new(value, is_some)
}

impl Choice {
    /// Convert a `subtle` flag into this crate's flag, bit for bit.
    pub fn from_subtle(value: subtle::Choice) -> (r: Self)
        ensures
            r@ == 0 || r@ == 1,
    {
        let bit = subtle_choice_unwrap_u8(&value);
        proof {
            assert(bit & 1 == bit) by (bit_vector)
                requires
                    bit == 0 || bit == 1,
            ;
        }
        Self::from_u8(bit)
    }

    /// Convert this crate's flag into a `subtle` flag, bit for bit.
    pub fn into_subtle(self) -> (r: subtle::Choice)
        requires
            self@ == 0 || self@ == 1,
    {
        subtle_choice_from_u8(self.vt_to_u8())
    }
}

} // verus!
