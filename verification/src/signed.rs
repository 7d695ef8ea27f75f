//! The shape of a signed multi-word integer: a two's-complement
//! reinterpretation of the unsigned word sequence.

use vstd::prelude::*;

use crate::Uint;

verus! {

/// A signed integer made of `LIMBS` machine words.
#[derive(Clone, Copy, Hash)]
pub struct Int<const LIMBS: usize>(pub(crate) Uint<LIMBS>);

} // verus!
