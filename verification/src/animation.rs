use vstd::prelude::*;
use vstd::arithmetic::div_mod::{lemma_mod_add_multiples_vanish, lemma_small_mod};

verus! {

/// Frames per row of the shared sprite sheet.
pub const ATLAS_COLUMNS: usize = 14;

/// Rows of the shared sprite sheet, one per animation state.
pub const ATLAS_ROWS: usize = 4;

/// Milliseconds between two frame advances.
pub const FRAME_INTERVAL_MS: u64 = 500;

/// Discrete animation state of an animatable entity; exactly one is active
/// at a time and selects one row of the sprite sheet.
#[derive(Clone, Copy, Debug, PartialEq, Eq, Structural)]
pub enum AnimState {
    Idle,
    Run,
    Jump,
    Fall,
}

impl AnimState {
    /// Row of the sprite sheet that this state plays.
    pub open spec fn row(self) -> nat {
        match self {
            AnimState::Idle => 0,
            AnimState::Run => 1,
            AnimState::Jump => 2,
            AnimState::Fall => 3,
        }
    }

    /// First atlas index of this state's frame range.
    pub open spec fn first_frame(self) -> nat {
        self.row() * (ATLAS_COLUMNS as nat)
    }

    /// Number of frames in this state's range (one full row).
    pub open spec fn frame_count(self) -> nat {
        ATLAS_COLUMNS as nat
    }

    /// Last atlas index of this state's frame range.
    pub open spec fn last_frame(self) -> nat {
        (self.first_frame() + self.frame_count() - 1) as nat
    }

    /// Whether `idx` lies in this state's frame range.
    pub open spec fn in_range(self, idx: nat) -> bool {
        self.first_frame() <= idx <= self.last_frame()
    }

    /// First atlas index of this state's frame range.
    pub fn first_frame_index(self) -> (r: usize)
        ensures
            r == self.first_frame(),
    {
        match self {
            AnimState::Idle => 0,
            AnimState::Run => 14,
            AnimState::Jump => 28,
            AnimState::Fall => 42,
        }
    }

    /// Last atlas index of this state's frame range.
    pub fn last_frame_index(self) -> (r: usize)
        ensures
            r == self.last_frame(),
    {
        match self {
            AnimState::Idle => 13,
            AnimState::Run => 27,
            AnimState::Jump => 41,
            AnimState::Fall => 55,
        }
    }
}

/// The atlas index that follows `idx` in `state`'s range: one step forward,
/// wrapping to the range's first frame after its last.
pub open spec fn advance_index(state: AnimState, idx: nat) -> nat {
    if idx >= state.last_frame() {
        state.first_frame()
    } else {
        idx + 1
    }
}

/// `n` advances in a row, starting from `idx`.
pub open spec fn advance_index_n(state: AnimState, idx: nat, n: nat) -> nat
    decreases n,
{
    if n == 0 {
        idx
    } else {
        advance_index_n(state, advance_index(state, idx), (n - 1) as nat)
    }
}

/// Whether a countdown of `remaining` milliseconds fires when `dt` more
/// milliseconds elapse.
pub open spec fn timer_fires(remaining: nat, dt: nat) -> bool {
    dt >= remaining
}

/// The countdown left after `dt` milliseconds elapse: the interval when the
/// timer fired (full reset, no remainder carried), else what is still to run.
pub open spec fn timer_after(remaining: nat, dt: nat, interval: nat) -> nat {
    if timer_fires(remaining, dt) {
        interval
    } else {
        (remaining - dt) as nat
    }
}

/// Per-entity sprite animation: the active state, the current atlas index,
/// and the countdown until the next frame advance.
#[derive(Clone, Copy, Debug, PartialEq, Eq, Structural)]
pub struct SpriteAnimation {
    /// Active animation state.
    pub state: AnimState,
    /// Current index into the shared texture atlas.
    pub index: usize,
    /// Milliseconds left until the next frame advance.
    pub remaining_ms: u64,
    /// Milliseconds between two frame advances.
    pub interval_ms: u64,
}

impl SpriteAnimation {
    /// The index lies in the active state's frame range and the configured
    /// interval is a real duration.
    pub open spec fn wf(self) -> bool {
        &&& self.state.in_range(self.index as nat)
        &&& self.interval_ms > 0
    }

    /// The animation one update of `dt_ms` elapsed milliseconds later:
    /// the countdown runs down, and when it fires the index advances one
    /// frame (wrapping) and the countdown resets to the full interval.
    pub open spec fn ticked(self, dt_ms: u64) -> SpriteAnimation {
        SpriteAnimation {
            state: self.state,
            index: if timer_fires(self.remaining_ms as nat, dt_ms as nat) {
                advance_index(self.state, self.index as nat) as usize
            } else {
                self.index
            },
            remaining_ms: timer_after(
                self.remaining_ms as nat,
                dt_ms as nat,
                self.interval_ms as nat,
            ) as u64,
            interval_ms: self.interval_ms,
        }
    }

    /// A fresh animation in `state`, at the state's first frame, with a full
    /// countdown of `interval_ms`.
    pub fn new(state: AnimState, interval_ms: u64) -> (a: SpriteAnimation)
        requires
            interval_ms > 0,
        ensures
            a.state == state,
            a.index == state.first_frame(),
            a.remaining_ms == interval_ms,
            a.interval_ms == interval_ms,
            a.wf(),
    {
        SpriteAnimation {
            state,
            index: state.first_frame_index(),
            remaining_ms: interval_ms,
            interval_ms,
        }
    }

    /// Advance the animation by `dt_ms` elapsed milliseconds: decrement the
    /// countdown, and when it fires advance the index one frame within the
    /// active state's range (wrapping) and reset the countdown to the full
    /// interval, carrying no remainder.
    pub fn tick(&mut self, dt_ms: u64)
        requires
            old(self).wf(),
        ensures
            *final(self) == old(self).ticked(dt_ms),
            final(self).wf(),
    {
        if dt_ms >= self.remaining_ms {
            let last = self.state.last_frame_index();
            if self.index >= last {
                self.index = self.state.first_frame_index();
            } else {
                self.index = self.index + 1;
            }
            self.remaining_ms = self.interval_ms;
        } else {
            self.remaining_ms = self.remaining_ms - dt_ms;
        }
    }

    /// Hard-switch to `state`: the index resets to that state's first frame
    /// and the countdown restarts at the full interval, with no blending.
    pub fn set_state(&mut self, state: AnimState)
        requires
            old(self).wf(),
        ensures
            final(self).state == state,
            final(self).index == state.first_frame(),
            final(self).remaining_ms == old(self).interval_ms,
            final(self).interval_ms == old(self).interval_ms,
            final(self).wf(),
    {
        self.state = state;
        self.index = state.first_frame_index();
        self.remaining_ms = self.interval_ms;
    }
}

/// Advancing keeps the index inside the active state's frame range.
pub proof fn lemma_advance_in_range(state: AnimState, idx: nat)
    requires
        state.in_range(idx),
    ensures
        state.in_range(advance_index(state, idx)),
{
}

/// Every in-range atlas index addresses a cell of the shared sprite sheet.
pub proof fn lemma_index_in_atlas(state: AnimState, idx: nat)
    requires
        state.in_range(idx),
    ensures
        idx < ATLAS_COLUMNS * ATLAS_ROWS,
{
}

/// In-range advances walk the state's frame range cyclically: `n` advances
/// from an in-range `idx` land on the range's start plus the offset of `idx`
/// plus `n`, taken modulo the range length.
pub proof fn lemma_advance_index_n_mod(state: AnimState, idx: nat, n: nat)
    requires
        state.in_range(idx),
    ensures
        advance_index_n(state, idx, n) == state.first_frame() + (idx - state.first_frame() + n)
            % (state.frame_count() as int),
    decreases n,
{
    let first = state.first_frame() as int;
    let count = state.frame_count() as int;
    if n == 0 {
        lemma_small_mod((idx - first) as nat, count as nat);
    } else {
        let idx2 = advance_index(state, idx);
        lemma_advance_in_range(state, idx);
        lemma_advance_index_n_mod(state, idx2, (n - 1) as nat);
        if idx >= state.last_frame() {
            assert(idx - first == count - 1);
            lemma_mod_add_multiples_vanish(n - 1, count);
            assert((idx2 - first + (n - 1) as nat) % count == (idx - first + n) % count);
        }
    }
}

/// Wrap idempotence: advancing exactly range-length many times returns an
/// in-range index to itself; in particular, from the range's start it comes
/// back to the start.
pub proof fn lemma_advance_index_cycle(state: AnimState, idx: nat)
    requires
        state.in_range(idx),
    ensures
        advance_index_n(state, idx, state.frame_count()) == idx,
{
    let first = state.first_frame() as int;
    let count = state.frame_count() as int;
    lemma_advance_index_n_mod(state, idx, state.frame_count());
    lemma_mod_add_multiples_vanish(idx - first, count);
    lemma_small_mod((idx - first) as nat, count as nat);
}

/// The frame timer never goes negative: one update leaves `previous - dt`
/// on the clock when the timer does not fire and the full interval when it
/// does, and two consecutive updates without a wrap leave
/// `previous - dt1 - dt2`, still positive.
pub proof fn lemma_timer_never_negative(remaining: nat, dt1: nat, dt2: nat, interval: nat)
    ensures
        timer_after(remaining, dt1, interval) >= 0,
        !timer_fires(remaining, dt1) ==> timer_after(remaining, dt1, interval) == remaining - dt1,
        timer_fires(remaining, dt1) ==> timer_after(remaining, dt1, interval) == interval,
        (!timer_fires(remaining, dt1) && !timer_fires(
            timer_after(remaining, dt1, interval),
            dt2,
        )) ==> timer_after(timer_after(remaining, dt1, interval), dt2, interval) == remaining - dt1
            - dt2 > 0,
{
}

} // verus!
