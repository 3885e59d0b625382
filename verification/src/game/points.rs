use vstd::prelude::*;

verus! {

/// Each qualifying hit toward an exclusive mode.
pub const EXCL_QUAL_HIT: u32 = 50_250;
/// Starting an exclusive mode.
pub const EXCL_START: u32 = 350_000;
/// Completing an exclusive mode.
pub const EXL_COMPLETION: u32 = 50_000_000;
/// Each mode shot made during an exclusive mode.
pub const EXL_MODE_HIT: u32 = 150_000;

} // verus!
