//! Urgency tiers derived from the fraction of the allotted time already consumed.

use vstd::prelude::*;

verus! {

/// How close a session is to its deadline.
#[derive(Clone, Copy, Debug, PartialEq, Eq, Structural)]
pub enum UrgencyTier {
    /// Less than seven tenths of the allotted time is used up.
    Normal,
    /// At least seven tenths, but less than nine tenths, is used up.
    Warning,
    /// Nine tenths or more is used up.
    Critical,
}

/// The tier of the ratio `consumed / allotted`, stated without division:
/// `r < 0.7` is `10 * consumed < 7 * allotted`, and `r < 0.9` is
/// `10 * consumed < 9 * allotted`.
pub open spec fn tier_of_ratio(consumed: int, allotted: int) -> UrgencyTier
    recommends
        consumed >= 0,
        allotted > 0,
{
    if 10 * consumed < 7 * allotted {
        UrgencyTier::Normal
    } else if 10 * consumed < 9 * allotted {
        UrgencyTier::Warning
    } else {
        UrgencyTier::Critical
    }
}

/// Classifies the ratio `consumed / allotted`, both given in the same unit.
///
/// The ratio is undefined for `allotted == 0`, so that input is left out, and
/// so are quantities too large to be multiplied by ten in 128 bits.
pub fn classify(consumed: u128, allotted: u128) -> (tier: UrgencyTier)
    requires
        allotted > 0,
        10 * consumed <= u128::MAX,
        10 * allotted <= u128::MAX,
    ensures
        tier == tier_of_ratio(consumed as int, allotted as int),
{
    let used: u128 = 10 * consumed;
    if used < 7 * allotted {
        UrgencyTier::Normal
    } else if used < 9 * allotted {
        UrgencyTier::Warning
    } else {
        UrgencyTier::Critical
    }
}

} // verus!
