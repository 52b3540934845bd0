//! The status classifier: maps elapsed boiling time to a softness level.

use vstd::prelude::*;

verus! {

/// How soft a batch of boiling potatoes currently is, ordered from least to
/// most cooked: `HardAsRock < StillFirm < StartingToSoften < ReasonablySoft
/// < LikeButter`.
#[derive(Clone, Copy, Debug, PartialEq, Eq, Structural)]
pub enum SoftnessLevel {
    HardAsRock,
    StillFirm,
    StartingToSoften,
    ReasonablySoft,
    LikeButter,
}

/// Position of a level in the softness order: `HardAsRock` is 0, `LikeButter`
/// is 4.
pub open spec fn rank(level: SoftnessLevel) -> int {
    match level {
        SoftnessLevel::HardAsRock => 0,
        SoftnessLevel::StillFirm => 1,
        SoftnessLevel::StartingToSoften => 2,
        SoftnessLevel::ReasonablySoft => 3,
        SoftnessLevel::LikeButter => 4,
    }
}

/// The softness of a batch that has boiled for `elapsed` time-units out of a
/// full boil of `duration` time-units. Thresholds sit at 40%, 60%, 80% and
/// 100% of the duration; each is an inclusive lower bound, so a tie resolves
/// to the softer band. Stated over `5 * elapsed` against multiples of
/// `duration` so that the fractional thresholds are exact.
pub open spec fn classify_spec(elapsed: int, duration: int) -> SoftnessLevel {
    if elapsed >= duration {
        SoftnessLevel::LikeButter
    } else if 5 * elapsed >= 4 * duration {
        SoftnessLevel::ReasonablySoft
    } else if 5 * elapsed >= 3 * duration {
        SoftnessLevel::StartingToSoften
    } else if 5 * elapsed >= 2 * duration {
        SoftnessLevel::StillFirm
    } else {
        SoftnessLevel::HardAsRock
    }
}

/// Executable form of the classifier. Pure: the result depends on the two
/// arguments alone.
pub fn classify(elapsed: u64, duration: u64) -> (level: SoftnessLevel)
    ensures
        level == classify_spec(elapsed as int, duration as int),
{
    if elapsed >= duration {
        SoftnessLevel::LikeButter
    } else if (elapsed as u128) * 5 >= (duration as u128) * 4 {
        SoftnessLevel::ReasonablySoft
    } else if (elapsed as u128) * 5 >= (duration as u128) * 3 {
        SoftnessLevel::StartingToSoften
    } else if (elapsed as u128) * 5 >= (duration as u128) * 2 {
        SoftnessLevel::StillFirm
    } else {
        SoftnessLevel::HardAsRock
    }
}

/// Executable rank of a level, for callers that need to compare two levels.
pub fn rank_of(level: SoftnessLevel) -> (r: u8)
    ensures
        r as int == rank(level),
{
    match level {
        SoftnessLevel::HardAsRock => 0,
        SoftnessLevel::StillFirm => 1,
        SoftnessLevel::StartingToSoften => 2,
        SoftnessLevel::ReasonablySoft => 3,
        SoftnessLevel::LikeButter => 4,
    }
}

/// The classifier is monotonically non-decreasing in the elapsed time: boiling
/// longer never makes the batch harder.
pub proof fn lemma_classifier_monotonic(e1: int, e2: int, duration: int)
    requires
        e1 <= e2,
    ensures
        rank(classify_spec(e1, duration)) <= rank(classify_spec(e2, duration)),
{
}

/// Once the full boil duration has elapsed, the batch is as soft as it gets.
pub proof fn lemma_classifier_done_at_duration(duration: int)
    ensures
        classify_spec(duration, duration) == SoftnessLevel::LikeButter,
{
}

} // verus!
