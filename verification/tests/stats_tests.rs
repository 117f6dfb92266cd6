use counter_strafe_trainer::state::Quality;
use counter_strafe_trainer::stats::{Stats, FULL_SHARE};

/// A share in hundredths of a per cent as a percentage.
fn percent(share: u64) -> f64 {
    share as f64 / 100.0
}

#[test]
fn test_empty_stats() {
    let stats = Stats::new();
    assert_eq!(stats.total_attempts, 0);
    assert_eq!(percent(stats.perfect_percentage()), 0.0);
}

#[test]
fn test_record_attempts() {
    let mut stats = Stats::new();
    stats.record(Quality::Perfect);
    stats.record(Quality::Perfect);
    stats.record(Quality::Good);
    stats.record(Quality::Failed);

    assert_eq!(stats.total_attempts, 4);
    assert_eq!(stats.perfect_count, 2);
    assert_eq!(stats.good_count, 1);
    assert_eq!(stats.failed_count, 1);
    assert_eq!(percent(stats.perfect_percentage()), 50.0);
}

#[test]
fn test_reset() {
    let mut stats = Stats::new();
    stats.record(Quality::Perfect);
    stats.record(Quality::Good);
    stats.reset();

    assert_eq!(stats.total_attempts, 0);
    assert_eq!(stats.perfect_count, 0);
}

#[test]
fn empty_stats_have_no_shares() {
    for stats in [Stats::new(), Stats::default()] {
        assert_eq!(stats.total_attempts, 0);
        assert_eq!(stats.perfect_count, 0);
        assert_eq!(stats.good_count, 0);
        assert_eq!(stats.failed_count, 0);
        assert_eq!(stats.perfect_percentage(), 0);
        assert_eq!(stats.good_percentage(), 0);
        assert_eq!(stats.failed_percentage(), 0);
    }
}

#[test]
fn shares_are_hundredths_of_a_per_cent_rounded_down() {
    let mut stats = Stats::new();
    stats.record(Quality::Perfect);
    assert_eq!(stats.perfect_percentage(), FULL_SHARE);
    assert_eq!(stats.good_percentage(), 0);
    assert_eq!(stats.failed_percentage(), 0);

    stats.record(Quality::Good);
    stats.record(Quality::Failed);
    assert_eq!(stats.perfect_percentage(), 3_333);
    assert_eq!(stats.good_percentage(), 3_333);
    assert_eq!(stats.failed_percentage(), 3_333);

    stats.record(Quality::Failed);
    stats.record(Quality::Failed);
    stats.record(Quality::Failed);
    assert_eq!(stats.perfect_percentage(), 1_666);
    assert_eq!(stats.good_percentage(), 1_666);
    assert_eq!(stats.failed_percentage(), 6_666);
    assert_eq!(percent(stats.failed_percentage()), 66.66);
}

#[test]
fn the_total_is_the_sum_after_any_records() {
    let mut stats = Stats::new();
    let grades = [Quality::Perfect, Quality::Failed, Quality::Good, Quality::Failed, Quality::Failed];
    for round in 0..200usize {
        stats.record(grades[(round * 7 + round / 3) % grades.len()]);
        assert_eq!(stats.total_attempts as usize, round + 1);
        assert_eq!(
            stats.total_attempts,
            stats.perfect_count + stats.good_count + stats.failed_count
        );
        for share in [stats.perfect_percentage(), stats.good_percentage(), stats.failed_percentage()] {
            assert!(share <= FULL_SHARE);
        }
        assert!(
            stats.perfect_percentage() + stats.good_percentage() + stats.failed_percentage()
                <= FULL_SHARE
        );
    }
}

#[test]
fn full_counters_stay_as_they_are() {
    let mut stats = Stats {
        total_attempts: u32::MAX,
        perfect_count: u32::MAX - 2,
        good_count: 1,
        failed_count: 1,
    };
    for grade in [Quality::Perfect, Quality::Good, Quality::Failed] {
        stats.record(grade);
        assert_eq!(stats.total_attempts, u32::MAX);
        assert_eq!(stats.perfect_count, u32::MAX - 2);
        assert_eq!(stats.good_count, 1);
        assert_eq!(stats.failed_count, 1);
    }
    assert_eq!(stats.perfect_percentage(), 9_999);
    assert_eq!(stats.good_percentage(), 0);

    let mut stats = Stats {
        total_attempts: u32::MAX - 1,
        perfect_count: u32::MAX - 1,
        good_count: 0,
        failed_count: 0,
    };
    stats.record(Quality::Good);
    assert_eq!(stats.total_attempts, u32::MAX);
    assert_eq!(stats.good_count, 1);
    stats.record(Quality::Good);
    assert_eq!(stats.total_attempts, u32::MAX);
    assert_eq!(stats.good_count, 1);
}

#[test]
fn a_copy_counts_on_its_own() {
    let mut stats = Stats::new();
    stats.record(Quality::Good);
    let copy = stats.clone();
    stats.record(Quality::Failed);
    assert_eq!(
        (copy.total_attempts, copy.perfect_count, copy.good_count, copy.failed_count),
        (1, 0, 1, 0)
    );
    assert_eq!(stats.total_attempts, 2);
}
