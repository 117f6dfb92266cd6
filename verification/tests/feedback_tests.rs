use counter_strafe_trainer::feedback::{
    FeedEntry, FeedSystem, FADE_DURATION, FULL_OPACITY, MAX_FEED_ENTRIES, VISIBLE_DURATION,
};
use counter_strafe_trainer::state::Quality;

/// Seconds as whole nanoseconds.
fn secs(seconds: f64) -> u64 {
    (seconds * 1e9).round() as u64
}

/// An opacity in billionths as a fraction.
fn fraction(opacity: u64) -> f64 {
    opacity as f64 / FULL_OPACITY as f64
}

fn messages(feed: &FeedSystem, now: u64) -> Vec<String> {
    feed.get_visible_entries(now).iter().map(|entry| entry.message.clone()).collect()
}

const START: u64 = 50_000_000_000;

#[test]
fn test_add_entries() {
    let mut feed = FeedSystem::new();
    feed.add_perfect(secs(0.080), START);
    feed.add_good(secs(0.100), START);
    feed.add_failed("Too fast 50ms", START);

    assert_eq!(feed.len(), 3);
}

#[test]
fn test_max_entries() {
    let mut feed = FeedSystem::new();
    for _i in 0..10 {
        feed.add_perfect(secs(0.080), START);
    }

    assert_eq!(feed.len(), MAX_FEED_ENTRIES);
}

#[test]
fn test_opacity() {
    let now = START;
    let entry = FeedEntry::new("Test".to_string(), Quality::Perfect, now);

    assert_eq!(fraction(entry.get_opacity(now)), 1.0);
}

#[test]
fn test_cleanup() {
    let mut feed = FeedSystem::new();
    feed.add_perfect(secs(0.080), START);

    let now = START;
    feed.cleanup(now);

    assert_eq!(feed.len(), 1);
}

#[test]
fn feed_constants_are_the_documented_times() {
    assert_eq!(MAX_FEED_ENTRIES, 5);
    assert_eq!(VISIBLE_DURATION, secs(3.0));
    assert_eq!(FADE_DURATION, secs(1.0));
}

#[test]
fn a_new_entry_carries_its_grade() {
    let entry = FeedEntry::new("Good 100ms".to_string(), Quality::Good, 77);
    assert_eq!(entry.message, "Good 100ms");
    assert_eq!(entry.symbol, Quality::Good.symbol());
    assert_eq!(entry.quality, Quality::Good);
    assert_eq!(entry.timestamp, 77);

    let copy = entry.clone();
    assert_eq!(copy.message, entry.message);
    assert_eq!(copy.symbol, entry.symbol);
    assert_eq!(copy.quality, entry.quality);
    assert_eq!(copy.timestamp, entry.timestamp);
}

#[test]
fn ten_entries_leave_the_newest_five() {
    let mut feed = FeedSystem::new();
    for i in 0..10u64 {
        feed.add(format!("entry {i}"), Quality::Good, START + i);
    }
    assert_eq!(feed.len(), 5);
    assert_eq!(
        messages(&feed, START + 10),
        vec!["entry 9", "entry 8", "entry 7", "entry 6", "entry 5"]
    );
    let stamps: Vec<u64> = feed.get_visible_entries(START + 10).iter().map(|e| e.timestamp).collect();
    assert_eq!(stamps, vec![START + 9, START + 8, START + 7, START + 6, START + 5]);
}

#[test]
fn the_feed_grows_one_by_one_up_to_its_capacity() {
    let mut feed = FeedSystem::new();
    assert_eq!(feed.len(), 0);
    for i in 1..=8usize {
        feed.add_failed("Both keys pressed", START);
        assert_eq!(feed.len(), i.min(MAX_FEED_ENTRIES));
    }
}

#[test]
fn convenience_adders_format_the_hold_time() {
    let mut feed = FeedSystem::new();
    feed.add_perfect(secs(0.080), START);
    feed.add_good(secs(0.1004), START + 1);
    feed.add_failed("Too slow 130ms", START + 2);
    feed.add_perfect(80_500_000, START + 3);
    feed.add_good(61_500_000, START + 4);

    let visible = feed.get_visible_entries(START + 4);
    let lines: Vec<(&str, Quality, &str)> = visible
        .iter()
        .map(|e| (e.message.as_str(), e.quality, e.symbol.as_str()))
        .collect();
    assert_eq!(
        lines,
        vec![
            ("Good 62ms", Quality::Good, Quality::Good.symbol()),
            ("PERFECT 80ms", Quality::Perfect, Quality::Perfect.symbol()),
            ("Too slow 130ms", Quality::Failed, Quality::Failed.symbol()),
            ("Good 100ms", Quality::Good, Quality::Good.symbol()),
            ("PERFECT 80ms", Quality::Perfect, Quality::Perfect.symbol()),
        ]
    );
}

#[test]
fn opacity_is_full_then_falls_in_a_straight_line() {
    let entry = FeedEntry::new("Test".to_string(), Quality::Perfect, START);

    assert_eq!(entry.get_opacity(START), FULL_OPACITY);
    assert_eq!(entry.get_opacity(START + secs(1.5)), FULL_OPACITY);
    assert_eq!(entry.get_opacity(START + secs(3.0) - 1), FULL_OPACITY);
    assert_eq!(entry.get_opacity(START + secs(3.0)), FULL_OPACITY);
    assert_eq!(entry.get_opacity(START + secs(3.0) + 1), FULL_OPACITY - 1);
    assert_eq!(fraction(entry.get_opacity(START + secs(3.25))), 0.75);
    assert_eq!(fraction(entry.get_opacity(START + secs(3.5))), 0.5);
    assert_eq!(fraction(entry.get_opacity(START + secs(3.9))), 0.1);
    assert_eq!(entry.get_opacity(START + secs(4.0) - 1), 1);
    assert_eq!(entry.get_opacity(START + secs(4.0)), 0);
    assert_eq!(entry.get_opacity(START + secs(60.0)), 0);
    assert_eq!(entry.get_opacity(u64::MAX), 0);
    // Before its own time an entry has no age.
    assert_eq!(entry.get_opacity(0), FULL_OPACITY);
}

#[test]
fn opacity_falls_strictly_through_the_fade() {
    let entry = FeedEntry::new("Test".to_string(), Quality::Good, START);
    let mut previous = entry.get_opacity(START + secs(3.0));
    let mut age = secs(3.0) + 1_000_000;
    while age <= secs(4.0) {
        let opacity = entry.get_opacity(START + age);
        assert!(opacity < previous, "age {age}");
        previous = opacity;
        age += 1_000_000;
    }
    assert_eq!(previous, 0);
}

#[test]
fn an_entry_expires_after_four_seconds() {
    let entry = FeedEntry::new("Test".to_string(), Quality::Failed, START);
    assert!(!entry.is_expired(START));
    assert!(!entry.is_expired(START + secs(3.0)));
    assert!(!entry.is_expired(START + secs(4.0) - 1));
    assert!(entry.is_expired(START + secs(4.0)));
    assert!(entry.is_expired(START + secs(4.0) + 1));
    assert!(entry.is_expired(u64::MAX));
    assert!(!entry.is_expired(0));
}

#[test]
fn cleanup_drops_what_has_faded_and_keeps_the_order() {
    let mut feed = FeedSystem::new();
    feed.add("old".to_string(), Quality::Good, START);
    feed.add("stale".to_string(), Quality::Failed, START + secs(0.5));
    feed.add("fresh".to_string(), Quality::Perfect, START + secs(2.0));
    feed.add("newest".to_string(), Quality::Good, START + secs(3.0));

    let now = START + secs(4.5);
    assert_eq!(messages(&feed, now), vec!["newest", "fresh"]);
    // Looking does not remove.
    assert_eq!(feed.len(), 4);

    feed.cleanup(now);
    assert_eq!(feed.len(), 2);
    assert_eq!(messages(&feed, now), vec!["newest", "fresh"]);

    feed.cleanup(START + secs(6.0) - 1);
    assert_eq!(messages(&feed, START + secs(6.0) - 1), vec!["newest", "fresh"]);
    feed.cleanup(START + secs(6.0));
    assert_eq!(messages(&feed, START + secs(6.0)), vec!["newest"]);
    feed.cleanup(START + secs(7.0));
    assert_eq!(feed.len(), 0);
}

#[test]
fn cleanup_keeps_entries_between_expired_ones() {
    let mut feed = FeedSystem::new();
    feed.add("a".to_string(), Quality::Good, START);
    feed.add("b".to_string(), Quality::Good, START + secs(2.0));
    feed.add("c".to_string(), Quality::Good, START);
    feed.add("d".to_string(), Quality::Good, START + secs(2.0));
    feed.add("e".to_string(), Quality::Good, START);

    feed.cleanup(START + secs(4.0));
    assert_eq!(messages(&feed, START + secs(4.0)), vec!["d", "b"]);
}

#[test]
fn entries_come_with_their_opacity() {
    let mut feed = FeedSystem::new();
    feed.add("gone".to_string(), Quality::Good, START);
    feed.add("fading".to_string(), Quality::Failed, START + secs(0.5));
    feed.add("full".to_string(), Quality::Perfect, START + secs(2.0));

    let now = START + secs(4.0);
    let faded = feed.get_entries_with_opacity(now);
    let lines: Vec<(&str, f64)> =
        faded.iter().map(|(entry, opacity)| (entry.message.as_str(), fraction(*opacity))).collect();
    assert_eq!(lines, vec![("full", 1.0), ("fading", 0.5)]);
    for (entry, opacity) in faded {
        assert_eq!(opacity, entry.get_opacity(now));
    }
}

#[test]
fn clear_and_default_and_clone() {
    let mut feed = FeedSystem::default();
    assert_eq!(feed.len(), 0);
    feed.add_failed("Both keys pressed", START);
    feed.add_perfect(secs(0.080), START + 1);

    let copy = feed.clone();
    assert_eq!(messages(&copy, START + 1), messages(&feed, START + 1));
    assert_eq!(messages(&copy, START + 1), vec!["PERFECT 80ms", "Both keys pressed"]);

    feed.clear();
    assert_eq!(feed.len(), 0);
    assert!(feed.get_visible_entries(START).is_empty());
    assert!(feed.get_entries_with_opacity(START).is_empty());
    assert_eq!(copy.len(), 2);
}
