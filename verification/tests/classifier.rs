//! Tests for the staleness classifier.

use project_cache::staleness::{classify_at, Outdated};

// Window 300, project id 17 => phase shift 17. For last_fetch = 1000 the
// next grid instant is 1217 (1217 % 300 == 17).

#[test]
fn verdict_is_updated_immediately_after_fetch() {
    assert_eq!(classify_at(1000, 17, 300, 60, 1000), Outdated::Updated);
}

#[test]
fn verdict_is_updated_until_the_grid_instant() {
    assert_eq!(classify_at(1000, 17, 300, 60, 1216), Outdated::Updated);
}

#[test]
fn verdict_turns_soft_exactly_at_the_grid_instant() {
    assert_eq!(classify_at(1000, 17, 300, 60, 1217), Outdated::SoftOutdated);
}

#[test]
fn verdict_stays_soft_through_the_grace_period() {
    assert_eq!(classify_at(1000, 17, 300, 60, 1276), Outdated::SoftOutdated);
}

#[test]
fn verdict_turns_hard_exactly_when_grace_ends() {
    assert_eq!(classify_at(1000, 17, 300, 60, 1277), Outdated::HardOutdated);
}

#[test]
fn verdict_is_monotonic_over_time() {
    let mut last = 0;
    for now in 1000..1400 {
        let rank = match classify_at(1000, 17, 300, 60, now) {
            Outdated::Updated => 0,
            Outdated::SoftOutdated => 1,
            Outdated::HardOutdated => 2,
        };
        assert!(rank >= last, "verdict moved backwards at {now}");
        last = rank;
    }
}

#[test]
fn fetch_on_the_grid_instant_schedules_a_full_window_later() {
    // 917 % 300 == 17, so 917 lies exactly on the grid; the next fetch is
    // one full window later at 1217, not at 917 itself.
    assert_eq!(classify_at(917, 17, 300, 0, 917), Outdated::Updated);
    assert_eq!(classify_at(917, 17, 300, 0, 1216), Outdated::Updated);
    assert_eq!(classify_at(917, 17, 300, 0, 1217), Outdated::HardOutdated);
}

#[test]
fn congruent_fetch_times_share_the_grid_offset() {
    // 1000 and 1300 are congruent modulo the window 300: both turn soft
    // after exactly 217 seconds.
    assert_eq!(classify_at(1000, 17, 300, 60, 1000 + 216), Outdated::Updated);
    assert_eq!(classify_at(1000, 17, 300, 60, 1000 + 217), Outdated::SoftOutdated);
    assert_eq!(classify_at(1300, 17, 300, 60, 1300 + 216), Outdated::Updated);
    assert_eq!(classify_at(1300, 17, 300, 60, 1300 + 217), Outdated::SoftOutdated);
}

#[test]
fn zero_grace_period_skips_the_soft_phase() {
    assert_eq!(classify_at(1000, 17, 300, 0, 1216), Outdated::Updated);
    assert_eq!(classify_at(1000, 17, 300, 0, 1217), Outdated::HardOutdated);
}

#[test]
fn different_projects_get_different_phases() {
    // Project 17 refreshes at 1217, project 42 at 1242: the grid spreads
    // projects across the window.
    assert_eq!(classify_at(1000, 42, 300, 0, 1217), Outdated::Updated);
    assert_eq!(classify_at(1000, 42, 300, 0, 1241), Outdated::Updated);
    assert_eq!(classify_at(1000, 42, 300, 0, 1242), Outdated::HardOutdated);
}

#[test]
fn window_of_one_second_expires_every_second() {
    assert_eq!(classify_at(1000, 5, 1, 0, 1000), Outdated::Updated);
    assert_eq!(classify_at(1000, 5, 1, 0, 1001), Outdated::HardOutdated);
}
