//! When samples need converting at all.
use vstd::prelude::*;

verus! {

/// True when no conversion is needed at all, so callers can skip the resampler
/// entirely on the common 48 kHz path.
pub fn is_identity(from_rate: u32, to_rate: u32) -> (r: bool)
    ensures
        r == (from_rate == to_rate),
{
    from_rate == to_rate
}

} // verus!
