//! The shape of an unsigned multi-word integer: a fixed-length ordered
//! sequence of words, length fixed at compile time.  The arithmetic on it
//! lives elsewhere; this crate only supplies the word algebra it consumes.

use vstd::prelude::*;

use crate::Limb;

verus! {

/// An unsigned integer made of `LIMBS` machine words.
#[derive(Clone, Copy, Hash)]
pub struct Uint<const LIMBS: usize> {
    pub(crate) limbs: [Limb; LIMBS],
}

} // verus!
