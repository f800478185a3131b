use vstd::prelude::*;
use crate::animation::{AnimState, SpriteAnimation, FRAME_INTERVAL_MS};
use crate::overlay::{format_fps, fps_label, round_millifps, rounded_fps};
use crate::player::{apply_movement, moved_x, movement_fits, InputState, PLAYER_SPEED};
use crate::transform::Transform;

verus! {

/// What one frame update did, for the host to log: which expected
/// singletons were missing (each a non-fatal no-op), whether the overlay
/// text was rewritten, and whether an orderly shutdown is requested.
#[derive(Clone, Copy, Debug, PartialEq, Eq, Structural)]
pub struct FrameReport {
    pub player_missing: bool,
    pub camera_missing: bool,
    pub overlay_updated: bool,
    pub shutdown_requested: bool,
}

/// The world: an arena of entities addressed by stable integer handles,
/// with component data held in parallel containers, plus optional handles
/// to the three expected singletons (player, camera, overlay) and a
/// cooperative shutdown flag for the host's loop.
pub struct World {
    /// Pose of each entity.
    pub transforms: Vec<Transform>,
    /// Sprite animation of each entity that is animated.
    pub anims: Vec<Option<SpriteAnimation>>,
    /// Text buffer of each entity that is a UI text node.
    pub texts: Vec<Option<String>>,
    /// The user-controlled actor, if one was spawned.
    pub player: Option<usize>,
    /// The viewport anchor, if one was spawned.
    pub camera: Option<usize>,
    /// The frame-rate text node, if one was spawned.
    pub overlay: Option<usize>,
    /// Set when an orderly shutdown was requested; the host's loop exits on
    /// it instead of the process being terminated abruptly.
    pub shutdown_requested: bool,
}

/// One animation step of `dt_ms` elapsed milliseconds on an optional
/// animation component.
pub open spec fn anim_step(a: Option<SpriteAnimation>, dt_ms: u64) -> Option<SpriteAnimation> {
    match a {
        Some(sa) => Some(sa.ticked(dt_ms)),
        None => None,
    }
}

impl World {
    /// Number of entities spawned so far.
    pub open spec fn num_entities(self) -> nat {
        self.transforms@.len()
    }

    /// The component containers run in parallel, every singleton handle
    /// addresses an entity carrying the components its system reads, and
    /// every animation is well formed.
    pub open spec fn wf(self) -> bool {
        &&& self.anims@.len() == self.num_entities()
        &&& self.texts@.len() == self.num_entities()
        &&& (self.player is Some ==> self.player->0 < self.num_entities()
            && self.anims@[self.player->0 as int] is Some)
        &&& (self.camera is Some ==> self.camera->0 < self.num_entities())
        &&& (self.overlay is Some ==> self.overlay->0 < self.num_entities()
            && self.texts@[self.overlay->0 as int] is Some)
        &&& (forall|i: int|
            0 <= i < self.anims@.len() && (#[trigger] self.anims@[i]) is Some
                ==> self.anims@[i]->0.wf())
    }

    /// An empty world: no entities, no singletons, no shutdown requested.
    pub fn new() -> (w: World)
        ensures
            w.wf(),
            w.num_entities() == 0,
            w.player is None,
            w.camera is None,
            w.overlay is None,
            !w.shutdown_requested,
    {
        World {
            transforms: Vec::new(),
            anims: Vec::new(),
            texts: Vec::new(),
            player: None,
            camera: None,
            overlay: None,
            shutdown_requested: false,
        }
    }

    /// Add a fresh entity at the origin, with no animation and no text, and
    /// return its handle. Handles are stable: entities are never destroyed
    /// during a run.
    pub fn spawn_entity(&mut self) -> (h: usize)
        requires
            old(self).wf(),
        ensures
            final(self).wf(),
            h == old(self).num_entities(),
            final(self).transforms@ == old(self).transforms@.push(
                (Transform { x: 0i64, y: 0i64, rot: 0i64 }),
            ),
            final(self).anims@ == old(self).anims@.push(None::<SpriteAnimation>),
            final(self).texts@ == old(self).texts@.push(None::<String>),
            final(self).player == old(self).player,
            final(self).camera == old(self).camera,
            final(self).overlay == old(self).overlay,
            final(self).shutdown_requested == old(self).shutdown_requested,
    {
        let h = self.transforms.len();
        self.transforms.push(Transform::origin());
        self.anims.push(None);
        self.texts.push(None);
        h
    }

    /// Startup: spawn the camera entity and record it as the viewport
    /// anchor. It has no state of its own between frames: each frame fully
    /// derives its pose from the player's.
    pub fn setup(&mut self)
        requires
            old(self).wf(),
        ensures
            final(self).wf(),
            final(self).camera is Some,
            final(self).camera->0 == old(self).num_entities(),
            final(self).transforms@ == old(self).transforms@.push(
                (Transform { x: 0i64, y: 0i64, rot: 0i64 }),
            ),
            final(self).anims@ == old(self).anims@.push(None::<SpriteAnimation>),
            final(self).texts@ == old(self).texts@.push(None::<String>),
            final(self).player == old(self).player,
            final(self).overlay == old(self).overlay,
            final(self).shutdown_requested == old(self).shutdown_requested,
    {
        let h = self.spawn_entity();
        self.camera = Some(h);
    }

    /// Startup: spawn the player at the world origin, in the `Idle`
    /// animation state with a full half-second frame countdown, and record
    /// it as the user-controlled actor. Its gravity-affected dynamic
    /// physics body belongs to the delegated physics integration and has no
    /// state here.
    pub fn spawn_player(&mut self)
        requires
            old(self).wf(),
        ensures
            final(self).wf(),
            final(self).player is Some,
            final(self).player->0 == old(self).num_entities(),
            final(self).transforms@ == old(self).transforms@.push(
                (Transform { x: 0i64, y: 0i64, rot: 0i64 }),
            ),
            final(self).anims@ == old(self).anims@.push(
                Some(
                    (SpriteAnimation {
                        state: AnimState::Idle,
                        index: 0usize,
                        remaining_ms: FRAME_INTERVAL_MS,
                        interval_ms: FRAME_INTERVAL_MS,
                    }),
                ),
            ),
            final(self).texts@ == old(self).texts@.push(None::<String>),
            final(self).camera == old(self).camera,
            final(self).overlay == old(self).overlay,
            final(self).shutdown_requested == old(self).shutdown_requested,
    {
        let h = self.spawn_entity();
        let anim = SpriteAnimation::new(AnimState::Idle, FRAME_INTERVAL_MS);
        self.anims[h] = Some(anim);
        self.player = Some(h);
        proof {
            assert(self.anims@ =~= old(self).anims@.push(Some(anim)));
        }
    }

    /// Startup: spawn the overlay text node with its placeholder text and
    /// record it as the frame-rate overlay. Its fixed screen-space offset
    /// (10px from the top-left corner) is the renderer's concern and has no
    /// state here.
    pub fn spawn_fps_text(&mut self)
        requires
            old(self).wf(),
        ensures
            final(self).wf(),
            final(self).overlay is Some,
            final(self).overlay->0 == old(self).num_entities(),
            final(self).transforms@ == old(self).transforms@.push(
                (Transform { x: 0i64, y: 0i64, rot: 0i64 }),
            ),
            final(self).anims@ == old(self).anims@.push(None::<SpriteAnimation>),
            final(self).texts@.len() == old(self).texts@.len() + 1,
            forall|i: int|
                0 <= i < old(self).texts@.len() ==> final(self).texts@[i] == old(self).texts@[i],
            final(self).texts@[old(self).num_entities() as int] is Some,
            final(self).texts@[old(self).num_entities() as int]->0@ == "FPS"@,
            final(self).player == old(self).player,
            final(self).camera == old(self).camera,
            final(self).shutdown_requested == old(self).shutdown_requested,
    {
        let h = self.spawn_entity();
        let placeholder = String::from_str("FPS");
        self.texts[h] = Some(placeholder);
        self.overlay = Some(h);
    }

    /// The displacement of one movement update on the player, if one was
    /// spawned, stays within the machine range of its position.
    pub open spec fn player_movement_fits(self, dt_ms: u64) -> bool {
        self.player is Some ==> movement_fits(
            self.transforms@[self.player->0 as int].x as int,
            PLAYER_SPEED as int,
            dt_ms as int,
        )
    }

    /// Per-frame player controller: displace the player's pose on the
    /// x-axis by `direction * speed * elapsed-time`. Vertical motion is
    /// left entirely to the delegated physics integration. With no player
    /// spawned this is a non-fatal no-op, reported to the caller.
    pub fn player_movement(&mut self, left: bool, right: bool, dt_ms: u64) -> (found: bool)
        requires
            old(self).wf(),
            old(self).player_movement_fits(dt_ms),
        ensures
            final(self).wf(),
            found == (old(self).player is Some),
            final(self).transforms@.len() == old(self).transforms@.len(),
            old(self).player is Some ==> {
                let p = old(self).player->0 as int;
                &&& final(self).transforms@[p].x == moved_x(
                    old(self).transforms@[p].x as int,
                    left,
                    right,
                    PLAYER_SPEED as int,
                    dt_ms as int,
                )
                &&& final(self).transforms@[p].y == old(self).transforms@[p].y
                &&& final(self).transforms@[p].rot == old(self).transforms@[p].rot
                &&& forall|i: int|
                    0 <= i < old(self).transforms@.len() && i != p ==> final(self).transforms@[i]
                        == old(self).transforms@[i]
            },
            old(self).player is None ==> final(self).transforms@ == old(self).transforms@,
            final(self).anims@ == old(self).anims@,
            final(self).texts@ == old(self).texts@,
            final(self).player == old(self).player,
            final(self).camera == old(self).camera,
            final(self).overlay == old(self).overlay,
            final(self).shutdown_requested == old(self).shutdown_requested,
    {
        match self.player {
            Some(h) => {
                let mut t = self.transforms[h];
                apply_movement(&mut t, left, right, dt_ms);
                self.transforms[h] = t;
                true
            },
            None => false,
        }
    }

    /// Per-frame sprite animator: advance every animated entity's frame
    /// timer by the elapsed time, advancing and wrapping its atlas index
    /// when the timer fires. It runs on every animated entity, not only the
    /// player, and is driven purely by elapsed time.
    pub fn animate(&mut self, dt_ms: u64)
        requires
            old(self).wf(),
        ensures
            final(self).wf(),
            final(self).anims@.len() == old(self).anims@.len(),
            forall|i: int|
                0 <= i < old(self).anims@.len() ==> final(self).anims@[i] == anim_step(
                    old(self).anims@[i],
                    dt_ms,
                ),
            final(self).transforms@ == old(self).transforms@,
            final(self).texts@ == old(self).texts@,
            final(self).player == old(self).player,
            final(self).camera == old(self).camera,
            final(self).overlay == old(self).overlay,
            final(self).shutdown_requested == old(self).shutdown_requested,
    {
        let n = self.anims.len();
        let mut j: usize = 0;
        while j < n
            invariant
                j <= n,
                n == self.anims@.len(),
                n == old(self).anims@.len(),
                forall|i: int|
                    0 <= i < j ==> self.anims@[i] == anim_step(old(self).anims@[i], dt_ms),
                forall|i: int| j <= i < n ==> self.anims@[i] == old(self).anims@[i],
                forall|i: int|
                    0 <= i < n && (#[trigger] old(self).anims@[i]) is Some ==> old(
                        self,
                    ).anims@[i]->0.wf(),
                forall|i: int|
                    0 <= i < n && (#[trigger] self.anims@[i]) is Some ==> self.anims@[i]->0.wf(),
                self.transforms@ == old(self).transforms@,
                self.texts@ == old(self).texts@,
                self.player == old(self).player,
                self.camera == old(self).camera,
                self.overlay == old(self).overlay,
                self.shutdown_requested == old(self).shutdown_requested,
            decreases n - j,
        {
            let cur = self.anims[j];
            match cur {
                Some(mut a) => {
                    a.tick(dt_ms);
                    self.anims[j] = Some(a);
                },
                None => {},
            }
            j = j + 1;
        }
    }

    /// Per-frame camera follower: copy the player's pose onto the camera,
    /// position and orientation alike — a hard lock with no smoothing, no
    /// offset and no dead-zone. With no player or no camera spawned this is
    /// a non-fatal no-op, reported to the caller.
    pub fn player_camera(&mut self) -> (followed: bool)
        requires
            old(self).wf(),
        ensures
            final(self).wf(),
            followed == (old(self).player is Some && old(self).camera is Some),
            followed ==> final(self).transforms@ == old(self).transforms@.update(
                old(self).camera->0 as int,
                old(self).transforms@[old(self).player->0 as int],
            ),
            !followed ==> final(self).transforms@ == old(self).transforms@,
            final(self).anims@ == old(self).anims@,
            final(self).texts@ == old(self).texts@,
            final(self).player == old(self).player,
            final(self).camera == old(self).camera,
            final(self).overlay == old(self).overlay,
            final(self).shutdown_requested == old(self).shutdown_requested,
    {
        match (self.player, self.camera) {
            (Some(p), Some(c)) => {
                let t = self.transforms[p];
                self.transforms[c] = t;
                true
            },
            _ => false,
        }
    }

    /// Per-frame diagnostics overlay: when a frame-rate sample (in
    /// milliframes per second) is available, overwrite the overlay's text
    /// buffer with `"FPS: "` and the sample rounded to whole frames per
    /// second. With no sample, or with no overlay spawned, the text is left
    /// untouched — a benign, silent skip, not an error.
    pub fn update_fps_text(&mut self, fps_milli: Option<u64>) -> (updated: bool)
        requires
            old(self).wf(),
        ensures
            final(self).wf(),
            updated == (old(self).overlay is Some && fps_milli is Some),
            updated ==> {
                let o = old(self).overlay->0 as int;
                &&& final(self).texts@.len() == old(self).texts@.len()
                &&& final(self).texts@[o] is Some
                &&& final(self).texts@[o]->0@ == fps_label(rounded_fps(fps_milli->0 as nat))
                &&& forall|i: int|
                    0 <= i < old(self).texts@.len() && i != o ==> final(self).texts@[i] == old(
                        self,
                    ).texts@[i]
            },
            !updated ==> final(self).texts@ == old(self).texts@,
            final(self).transforms@ == old(self).transforms@,
            final(self).anims@ == old(self).anims@,
            final(self).player == old(self).player,
            final(self).camera == old(self).camera,
            final(self).overlay == old(self).overlay,
            final(self).shutdown_requested == old(self).shutdown_requested,
    {
        match (self.overlay, fps_milli) {
            (Some(o), Some(m)) => {
                let r = round_millifps(m);
                let s = format_fps(r);
                self.texts[o] = Some(s);
                true
            },
            _ => false,
        }
    }

    /// Per-frame shutdown listener: while the escape key is held, request a
    /// cooperative shutdown, so the host's loop can wind down in order
    /// instead of the process being terminated abruptly. The request is
    /// never withdrawn.
    pub fn close_on_esc(&mut self, escape: bool)
        ensures
            final(self).shutdown_requested == (old(self).shutdown_requested || escape),
            final(self).transforms@ == old(self).transforms@,
            final(self).anims@ == old(self).anims@,
            final(self).texts@ == old(self).texts@,
            final(self).player == old(self).player,
            final(self).camera == old(self).camera,
            final(self).overlay == old(self).overlay,
    {
        if escape {
            self.shutdown_requested = true;
        }
    }

    /// One engine tick: the player controller, the sprite animator, the
    /// camera follower, the diagnostics overlay and the shutdown listener,
    /// in that order — the follower runs after the controller, so the
    /// camera takes this frame's player pose and follows with zero lag.
    pub fn update(&mut self, input: InputState, dt_ms: u64, fps_milli: Option<u64>) -> (r:
        FrameReport)
        requires
            old(self).wf(),
            old(self).player_movement_fits(dt_ms),
        ensures
            final(self).wf(),
            final(self).num_entities() == old(self).num_entities(),
            final(self).player == old(self).player,
            final(self).camera == old(self).camera,
            final(self).overlay == old(self).overlay,
            // The player is displaced by direction * speed * elapsed-time;
            // its vertical pose is not author-controlled.
            old(self).player is Some ==> {
                let p = old(self).player->0 as int;
                &&& final(self).transforms@[p].x == moved_x(
                    old(self).transforms@[p].x as int,
                    input.left,
                    input.right,
                    PLAYER_SPEED as int,
                    dt_ms as int,
                )
                &&& final(self).transforms@[p].y == old(self).transforms@[p].y
                &&& final(self).transforms@[p].rot == old(self).transforms@[p].rot
            },
            // The camera's pose equals the player's pose of this same frame.
            old(self).player is Some && old(self).camera is Some ==> final(self).transforms@[old(
                self,
            ).camera->0 as int] == final(self).transforms@[old(self).player->0 as int],
            // With no player the camera is left untouched.
            old(self).camera is Some && old(self).player is None ==> final(self).transforms@[old(
                self,
            ).camera->0 as int] == old(self).transforms@[old(self).camera->0 as int],
            // Every other entity's pose is unchanged.
            forall|i: int|
                0 <= i < old(self).num_entities() && (old(self).player is Some ==> i != old(
                    self,
                ).player->0 as int) && (old(self).camera is Some ==> i != old(self).camera->0 as int)
                    ==> final(self).transforms@[i] == old(self).transforms@[i],
            // Every animation is stepped exactly once.
            forall|i: int|
                0 <= i < old(self).num_entities() ==> final(self).anims@[i] == anim_step(
                    old(self).anims@[i],
                    dt_ms,
                ),
            // The overlay text is rewritten exactly when a sample is there.
            old(self).overlay is Some && fps_milli is Some ==> final(self).texts@[old(
                self,
            ).overlay->0 as int]->0@ == fps_label(rounded_fps(fps_milli->0 as nat)),
            old(self).overlay is None || fps_milli is None ==> final(self).texts@ == old(
                self,
            ).texts@,
            forall|i: int|
                0 <= i < old(self).texts@.len() && (old(self).overlay is Some ==> i != old(
                    self,
                ).overlay->0 as int) ==> final(self).texts@[i] == old(self).texts@[i],
            // Shutdown is requested exactly when it already was or escape is held.
            final(self).shutdown_requested == (old(self).shutdown_requested || input.escape),
            r.player_missing == (old(self).player is None),
            r.camera_missing == (old(self).camera is None),
            r.overlay_updated == (old(self).overlay is Some && fps_milli is Some),
            r.shutdown_requested == final(self).shutdown_requested,
    {
        let found = self.player_movement(input.left, input.right, dt_ms);
        self.animate(dt_ms);
        let followed = self.player_camera();
        let overlay_updated = self.update_fps_text(fps_milli);
        self.close_on_esc(input.escape);
        let camera_missing = self.camera.is_none();
        FrameReport {
            player_missing: !found,
            camera_missing,
            overlay_updated,
            shutdown_requested: self.shutdown_requested,
        }
    }
}

} // verus!
