//! Distances along a ray, as keys.
//!
//! A distance is handed over as the IEEE-754 single-precision bit pattern of
//! a non-negative value. Read as unsigned integers, such bit patterns are
//! ordered exactly as the values they encode: `+0` is `0`, the finite values
//! lie below [`FAR`], and `FAR` itself is `+infinity`. Comparing keys is
//! therefore a total order on distances.
use vstd::prelude::*;

verus! {

/// Key of an infinite distance, the distance to a light at infinity.
pub const FAR: u32 = 0x7f80_0000;

/// A key of a finite, non-negative distance.
pub open spec fn is_finite_key(k: u32) -> bool {
    k < FAR
}

/// Whether `key` stands for a finite distance.
pub fn is_finite(key: u32) -> (r: bool)
    ensures
        r == is_finite_key(key),
{
    key < FAR
}

} // verus!
