use vstd::prelude::*;

verus! {

/// The fixed-point unit: a value `v` stored as an integer stands for `v / FIXED_ONE`.
pub const FIXED_ONE: i64 = 1_000_000;

} // verus!
