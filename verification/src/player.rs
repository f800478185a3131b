use vstd::prelude::*;
use crate::transform::Transform;

verus! {

/// Horizontal speed of the player: millipixels per millisecond
/// (300 pixels per second).
pub const PLAYER_SPEED: u64 = 300;

/// Direction input for one frame, as the host reads it from the keyboard:
/// `left` covers the A and left-arrow keys, `right` the D and right-arrow
/// keys, and `escape` asks for an orderly shutdown.
#[derive(Clone, Copy, Debug, PartialEq, Eq, Structural)]
pub struct InputState {
    pub left: bool,
    pub right: bool,
    pub escape: bool,
}

/// Signed x-direction derived from the pressed keys: left contributes -1,
/// right contributes +1, so both at once cancel to zero.
pub open spec fn direction_x(left: bool, right: bool) -> int {
    (if right {
        1int
    } else {
        0int
    }) - (if left {
        1int
    } else {
        0int
    })
}

/// Signed x-direction derived from the pressed keys.
pub fn movement_direction(left: bool, right: bool) -> (d: i64)
    ensures
        d == direction_x(left, right),
{
    let r: i64 = if right {
        1
    } else {
        0
    };
    let l: i64 = if left {
        1
    } else {
        0
    };
    r - l
}

/// The x-position one movement update later:
/// `x + direction * speed * elapsed-time`.
pub open spec fn moved_x(x: int, left: bool, right: bool, speed: int, dt: int) -> int {
    x + direction_x(left, right) * (speed * dt)
}

/// The displacement `speed * dt` and both its applications to `x` stay
/// within the machine range of an `i64` position.
pub open spec fn movement_fits(x: int, speed: int, dt: int) -> bool {
    &&& 0 <= speed * dt <= i64::MAX
    &&& i64::MIN <= x - speed * dt
    &&& x + speed * dt <= i64::MAX
}

/// One movement update of the player controller: displace the pose on the
/// x-axis by `direction * PLAYER_SPEED * dt_ms`. Vertical motion is not
/// author-controlled (it is left to the delegated physics integration), so
/// `y` and `rot` are untouched.
pub fn apply_movement(t: &mut Transform, left: bool, right: bool, dt_ms: u64)
    requires
        movement_fits(old(t).x as int, PLAYER_SPEED as int, dt_ms as int),
    ensures
        final(t).x == moved_x(old(t).x as int, left, right, PLAYER_SPEED as int, dt_ms as int),
        final(t).y == old(t).y,
        final(t).rot == old(t).rot,
{
    let disp_wide: u64 = PLAYER_SPEED * dt_ms;
    let disp: i64 = disp_wide as i64;
    if left && !right {
        t.x = t.x - disp;
    } else if right && !left {
        t.x = t.x + disp;
    }
    proof {
        let d = direction_x(left, right);
        let p = PLAYER_SPEED as int * dt_ms as int;
        assert(d == -1 ==> d * p == -p) by (nonlinear_arith);
        assert(d == 1 ==> d * p == p) by (nonlinear_arith);
        assert(d == 0 ==> d * p == 0) by (nonlinear_arith);
    }
}

/// Movement follows the input exactly: with only "left" pressed the
/// x-position strictly decreases, with only "right" it strictly increases,
/// and with both or neither pressed it is unchanged (cancellation).
pub proof fn lemma_direction_movement(x: int, speed: int, dt: int)
    requires
        speed > 0,
        dt > 0,
    ensures
        moved_x(x, true, false, speed, dt) < x,
        moved_x(x, false, true, speed, dt) > x,
        moved_x(x, true, true, speed, dt) == x,
        moved_x(x, false, false, speed, dt) == x,
{
    assert(speed * dt > 0) by (nonlinear_arith)
        requires
            speed > 0,
            dt > 0,
    ;
}

} // verus!
