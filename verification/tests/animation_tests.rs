use platformer_core::animation::{AnimState, SpriteAnimation, ATLAS_COLUMNS, FRAME_INTERVAL_MS};

#[test]
fn timer_decrements_without_firing() {
    let mut a = SpriteAnimation::new(AnimState::Idle, FRAME_INTERVAL_MS);
    a.tick(100);
    assert_eq!(a.remaining_ms, 400);
    assert_eq!(a.index, 0);
    a.tick(399);
    assert_eq!(a.remaining_ms, 1);
    assert_eq!(a.index, 0);
}

#[test]
fn timer_zero_dt_changes_nothing() {
    let mut a = SpriteAnimation::new(AnimState::Idle, FRAME_INTERVAL_MS);
    a.tick(0);
    assert_eq!(a.remaining_ms, FRAME_INTERVAL_MS);
    assert_eq!(a.index, 0);
}

#[test]
fn timer_fires_and_resets_fully() {
    // The reset carries no remainder: a 0.6s update against a 0.5s countdown
    // leaves the full 0.5s interval on the clock, not 0.4s.
    let mut a = SpriteAnimation::new(AnimState::Idle, FRAME_INTERVAL_MS);
    a.tick(600);
    assert_eq!(a.index, 1);
    assert_eq!(a.remaining_ms, 500);
}

#[test]
fn timer_fires_exactly_at_zero() {
    let mut a = SpriteAnimation::new(AnimState::Idle, FRAME_INTERVAL_MS);
    a.tick(500);
    assert_eq!(a.index, 1);
    assert_eq!(a.remaining_ms, 500);
}

#[test]
fn huge_elapsed_time_advances_once_and_resets() {
    let mut a = SpriteAnimation::new(AnimState::Idle, FRAME_INTERVAL_MS);
    a.tick(u64::MAX);
    assert_eq!(a.index, 1);
    assert_eq!(a.remaining_ms, FRAME_INTERVAL_MS);
}

#[test]
fn index_wraps_at_range_end() {
    let mut a = SpriteAnimation {
        state: AnimState::Idle,
        index: 13,
        remaining_ms: 100,
        interval_ms: FRAME_INTERVAL_MS,
    };
    a.tick(100);
    assert_eq!(a.index, 0);
}

#[test]
fn full_cycle_returns_to_start() {
    // Wrap idempotence: range-length many advances return to the start.
    let mut a = SpriteAnimation::new(AnimState::Run, FRAME_INTERVAL_MS);
    let start = a.index;
    for _ in 0..ATLAS_COLUMNS {
        a.tick(FRAME_INTERVAL_MS);
        assert!(a.index >= 14 && a.index <= 27);
    }
    assert_eq!(a.index, start);
}

#[test]
fn index_stays_in_range_under_many_ticks() {
    let mut a = SpriteAnimation::new(AnimState::Fall, 7);
    for dt in 0..200u64 {
        a.tick(dt % 13);
        assert!(a.index >= 42 && a.index <= 55);
    }
}

#[test]
fn set_state_hard_switches_to_first_frame() {
    let mut a = SpriteAnimation::new(AnimState::Idle, FRAME_INTERVAL_MS);
    a.tick(600);
    assert_eq!(a.index, 1);
    a.set_state(AnimState::Run);
    assert_eq!(a.state, AnimState::Run);
    assert_eq!(a.index, 14);
    assert_eq!(a.remaining_ms, FRAME_INTERVAL_MS);
    a.set_state(AnimState::Jump);
    assert_eq!(a.index, 28);
    a.set_state(AnimState::Fall);
    assert_eq!(a.index, 42);
}

#[test]
fn frame_ranges_partition_the_atlas() {
    assert_eq!(AnimState::Idle.first_frame_index(), 0);
    assert_eq!(AnimState::Idle.last_frame_index(), 13);
    assert_eq!(AnimState::Run.first_frame_index(), 14);
    assert_eq!(AnimState::Run.last_frame_index(), 27);
    assert_eq!(AnimState::Jump.first_frame_index(), 28);
    assert_eq!(AnimState::Jump.last_frame_index(), 41);
    assert_eq!(AnimState::Fall.first_frame_index(), 42);
    assert_eq!(AnimState::Fall.last_frame_index(), 55);
}
