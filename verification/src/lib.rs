//! A minimal hash-linked header chain with proof-of-work admission and a
//! pluggable per-block acceptance policy, together with a batched-extrinsics
//! block layer and a small clothing-lifecycle state machine.

use vstd::prelude::*;

pub mod blocks;
pub mod consensus;
pub mod digest;
pub mod laundry;

verus! {

/// Sum of two machine-word integers.
pub fn add(left: usize, right: usize) -> (r: usize)
    requires
        left + right <= usize::MAX,
    ensures
        r == left + right,
{
    left + right
}

} // verus!
