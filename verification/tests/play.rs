//! The play session.

use fairy_lantern::play::{audio_catchup_extra, hold_progress, next_turbo_mult, Hold};

#[test]
fn no_catchup_when_ring_healthy() {
    assert_eq!(audio_catchup_extra(true, 4000, 32768), 0);
}

#[test]
fn no_sprint_when_starving() {
    assert_eq!(audio_catchup_extra(true, 10, 32768), 0);
    assert_eq!(audio_catchup_extra(true, 10, 13379), 0);
}

#[test]
fn none_before_fifo_lock() {
    assert_eq!(audio_catchup_extra(false, 0, 32768), 0);
}

#[test]
fn turbo_cycles_2_3_4() {
    assert_eq!(next_turbo_mult(2), 3);
    assert_eq!(next_turbo_mult(3), 4);
    assert_eq!(next_turbo_mult(4), 2);
    assert_eq!(next_turbo_mult(0), 2);
}

#[test]
fn hold_fires_once_after_threshold() {
    let t0 = 1_000_000_000u64;
    let mut since = None;
    let mut fired = false;
    assert!(matches!(
        hold_progress(true, &mut since, &mut fired, t0),
        Hold::Charging(_)
    ));
    let t1 = t0 + 700_000_000;
    assert!(matches!(
        hold_progress(true, &mut since, &mut fired, t1),
        Hold::Fire
    ));
    assert!(matches!(
        hold_progress(true, &mut since, &mut fired, t1 + 10_000_000),
        Hold::Idle
    ));
    assert!(matches!(
        hold_progress(false, &mut since, &mut fired, t1),
        Hold::Idle
    ));
}
