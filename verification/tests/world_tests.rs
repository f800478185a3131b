use platformer_core::animation::{AnimState, SpriteAnimation, FRAME_INTERVAL_MS};
use platformer_core::player::InputState;
use platformer_core::transform::Transform;
use platformer_core::world::World;

fn no_keys() -> InputState {
    InputState { left: false, right: false, escape: false }
}

#[test]
fn startup_spawns_the_three_singletons() {
    let mut w = World::new();
    w.setup();
    w.spawn_player();
    w.spawn_fps_text();
    assert_eq!(w.camera, Some(0));
    assert_eq!(w.player, Some(1));
    assert_eq!(w.overlay, Some(2));
    assert_eq!(w.transforms.len(), 3);
    assert_eq!(w.transforms[1], Transform { x: 0, y: 0, rot: 0 });
    let anim = w.anims[1].unwrap();
    assert_eq!(anim.state, AnimState::Idle);
    assert_eq!(anim.index, 0);
    assert_eq!(anim.remaining_ms, FRAME_INTERVAL_MS);
    assert_eq!(w.texts[2].as_ref().unwrap().as_str(), "FPS");
    assert!(!w.shutdown_requested);
}

#[test]
fn scenario_idle_at_origin_one_long_update() {
    // Player at the origin in Idle (frame range 0..=13, 0.5s interval);
    // one update of 0.6s advances the index to 1 and fully resets the
    // timer to 0.5s — the non-carrying reset.
    let mut w = World::new();
    w.setup();
    w.spawn_player();
    let r = w.update(no_keys(), 600, None);
    let p = w.player.unwrap();
    let anim = w.anims[p].unwrap();
    assert_eq!(anim.index, 1);
    assert_eq!(anim.remaining_ms, 500);
    assert_eq!(w.transforms[p], Transform { x: 0, y: 0, rot: 0 });
    assert!(!r.player_missing);
    assert!(!r.camera_missing);
    assert!(!r.shutdown_requested);
}

#[test]
fn left_only_strictly_decreases_player_x() {
    let mut w = World::new();
    w.setup();
    w.spawn_player();
    let p = w.player.unwrap();
    let mut prev = w.transforms[p].x;
    for _ in 0..5 {
        w.update(InputState { left: true, right: false, escape: false }, 16, None);
        assert!(w.transforms[p].x < prev);
        prev = w.transforms[p].x;
    }
}

#[test]
fn right_only_strictly_increases_player_x() {
    let mut w = World::new();
    w.spawn_player();
    let p = w.player.unwrap();
    w.update(InputState { left: false, right: true, escape: false }, 16, None);
    assert_eq!(w.transforms[p].x, 300 * 16);
}

#[test]
fn both_keys_cancel_movement() {
    let mut w = World::new();
    w.spawn_player();
    let p = w.player.unwrap();
    w.update(InputState { left: true, right: true, escape: false }, 16, None);
    assert_eq!(w.transforms[p].x, 0);
}

#[test]
fn camera_equals_player_pose_after_update() {
    let mut w = World::new();
    w.setup();
    w.spawn_player();
    let p = w.player.unwrap();
    let c = w.camera.unwrap();
    // Give the player a distinctive pose the follower must copy exactly.
    w.transforms[p] = Transform { x: 123, y: -456, rot: 789 };
    w.update(InputState { left: false, right: true, escape: false }, 10, None);
    assert_eq!(w.transforms[c], w.transforms[p]);
    assert_eq!(w.transforms[c].x, 123 + 300 * 10);
    assert_eq!(w.transforms[c].y, -456);
    assert_eq!(w.transforms[c].rot, 789);
}

#[test]
fn missing_player_is_a_reported_no_op() {
    let mut w = World::new();
    w.setup();
    let c = w.camera.unwrap();
    w.transforms[c] = Transform { x: 1, y: 2, rot: 3 };
    let r = w.update(InputState { left: true, right: false, escape: false }, 16, None);
    assert!(r.player_missing);
    // The camera keeps its pose: nothing to follow.
    assert_eq!(w.transforms[c], Transform { x: 1, y: 2, rot: 3 });
}

#[test]
fn missing_camera_is_a_reported_no_op() {
    let mut w = World::new();
    w.spawn_player();
    let r = w.update(no_keys(), 16, None);
    assert!(r.camera_missing);
    assert!(!r.player_missing);
}

#[test]
fn overlay_unchanged_without_a_sample() {
    let mut w = World::new();
    w.spawn_fps_text();
    let o = w.overlay.unwrap();
    let r = w.update(no_keys(), 16, None);
    assert_eq!(w.texts[o].as_ref().unwrap().as_str(), "FPS");
    assert!(!r.overlay_updated);
}

#[test]
fn overlay_rewritten_with_a_sample() {
    let mut w = World::new();
    w.spawn_fps_text();
    let o = w.overlay.unwrap();
    let r = w.update(no_keys(), 16, Some(59700));
    assert_eq!(w.texts[o].as_ref().unwrap().as_str(), "FPS: 60");
    assert!(r.overlay_updated);
}

#[test]
fn escape_requests_shutdown_and_sticks() {
    let mut w = World::new();
    w.setup();
    w.spawn_player();
    let r = w.update(InputState { left: false, right: false, escape: true }, 16, None);
    assert!(r.shutdown_requested);
    assert!(w.shutdown_requested);
    let r2 = w.update(no_keys(), 16, None);
    assert!(r2.shutdown_requested);
    assert!(w.shutdown_requested);
}

#[test]
fn animator_runs_on_every_animated_entity() {
    // Animation progresses even on entities that are not the player.
    let mut w = World::new();
    let h = w.spawn_entity();
    w.anims[h] = Some(SpriteAnimation::new(AnimState::Jump, 100));
    w.update(no_keys(), 250, None);
    let anim = w.anims[h].unwrap();
    assert_eq!(anim.index, 29);
    assert_eq!(anim.remaining_ms, 100);
}

#[test]
fn zero_elapsed_time_changes_no_pose_or_frame() {
    let mut w = World::new();
    w.setup();
    w.spawn_player();
    let p = w.player.unwrap();
    w.update(InputState { left: true, right: false, escape: false }, 0, None);
    assert_eq!(w.transforms[p], Transform { x: 0, y: 0, rot: 0 });
    let anim = w.anims[p].unwrap();
    assert_eq!(anim.index, 0);
    assert_eq!(anim.remaining_ms, FRAME_INTERVAL_MS);
}

#[test]
fn update_without_any_entities_is_harmless() {
    let mut w = World::new();
    let r = w.update(no_keys(), 16, Some(60000));
    assert!(r.player_missing);
    assert!(r.camera_missing);
    assert!(!r.overlay_updated);
    assert_eq!(w.transforms.len(), 0);
}
