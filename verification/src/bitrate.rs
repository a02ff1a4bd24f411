//! The session's outbound bitrate target.

use vstd::prelude::*;

verus! {

/// A closed three-case sum type, so that "maximum" and "automatic" can never
/// collide with an explicit bits-per-second value.
#[derive(Clone, Copy, Debug, PartialEq, Eq, Structural)]
pub enum BitrateSetting {
    /// An explicit target in bits per second.
    ExplicitBitsPerSecond(i32),
    /// Use the highest rate the codec supports.
    Maximum,
    /// Let the engine pick a rate.
    Automatic,
}

/// The three bitrate cases are pairwise distinguishable: no explicit
/// bits-per-second value, whatever its magnitude, coincides with `Maximum`
/// or `Automatic`, and those two never coincide with each other.
pub proof fn lemma_bitrate_cases_distinct(n: i32)
    ensures
        BitrateSetting::ExplicitBitsPerSecond(n) != BitrateSetting::Maximum,
        BitrateSetting::ExplicitBitsPerSecond(n) != BitrateSetting::Automatic,
        BitrateSetting::Maximum != BitrateSetting::Automatic,
{
}

} // verus!
