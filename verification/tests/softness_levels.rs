use nordo_service::softness::{classify, rank_of, SoftnessLevel};

#[test]
fn classifier_exact_thresholds() {
    // Boil duration 900: bands start at 360 (40%), 540 (60%), 720 (80%),
    // 900 (100%); each threshold is inclusive, so a tie lands in the softer
    // band.
    assert_eq!(classify(0, 900), SoftnessLevel::HardAsRock);
    assert_eq!(classify(359, 900), SoftnessLevel::HardAsRock);
    assert_eq!(classify(360, 900), SoftnessLevel::StillFirm);
    assert_eq!(classify(539, 900), SoftnessLevel::StillFirm);
    assert_eq!(classify(540, 900), SoftnessLevel::StartingToSoften);
    assert_eq!(classify(719, 900), SoftnessLevel::StartingToSoften);
    assert_eq!(classify(720, 900), SoftnessLevel::ReasonablySoft);
    assert_eq!(classify(899, 900), SoftnessLevel::ReasonablySoft);
    assert_eq!(classify(900, 900), SoftnessLevel::LikeButter);
    assert_eq!(classify(1200, 900), SoftnessLevel::LikeButter);
}

#[test]
fn classifier_done_at_full_duration() {
    assert_eq!(classify(0, 0), SoftnessLevel::LikeButter);
    assert_eq!(classify(1, 1), SoftnessLevel::LikeButter);
    assert_eq!(classify(900, 900), SoftnessLevel::LikeButter);
    assert_eq!(classify(u64::MAX, u64::MAX), SoftnessLevel::LikeButter);
}

#[test]
fn classifier_monotonic_in_elapsed_time() {
    let mut last_rank = 0u8;
    for elapsed in 0..=1000u64 {
        let rank = rank_of(classify(elapsed, 900));
        assert!(rank >= last_rank);
        last_rank = rank;
    }
    assert_eq!(last_rank, 4);
}

#[test]
fn classifier_handles_large_durations() {
    // 5 * elapsed would overflow 64 bits here; the comparison must not.
    assert_eq!(classify(u64::MAX - 1, u64::MAX), SoftnessLevel::ReasonablySoft);
    assert_eq!(classify(u64::MAX / 2, u64::MAX), SoftnessLevel::StillFirm);
    assert_eq!(classify(0, u64::MAX), SoftnessLevel::HardAsRock);
}

#[test]
fn ranks_follow_the_softness_order() {
    assert_eq!(rank_of(SoftnessLevel::HardAsRock), 0);
    assert_eq!(rank_of(SoftnessLevel::StillFirm), 1);
    assert_eq!(rank_of(SoftnessLevel::StartingToSoften), 2);
    assert_eq!(rank_of(SoftnessLevel::ReasonablySoft), 3);
    assert_eq!(rank_of(SoftnessLevel::LikeButter), 4);
}
