//! The player's body: vertical motion under gravity, the decaying flap-force
//! accumulator, and the flap impulse.

use vstd::prelude::*;

use crate::config::COORD_LIMIT;
use crate::config::DT_LIMIT;
use crate::config::FORCE_DECAY_FLOOR;
use crate::config::PLAYER_FORCE_ON_FLAP;
use crate::config::RATE_LIMIT;

verus! {

/// One decay step of the flap-force accumulator: a force above the floor is
/// halved, a force at or below it snaps to zero.
pub open spec fn decayed_force(f: int) -> int {
    if f > FORCE_DECAY_FLOOR as int {
        f / 2
    } else {
        0
    }
}

/// The y position after one step: the update is exactly linear in `dt`.
/// `force` and `gravity` are milli-rates and `dt` is in milliseconds, so the
/// product is the exact position delta in micro-units.
pub open spec fn moved_y(y: int, force: int, gravity: int, dt: int) -> int {
    y + (force - gravity) * dt
}

/// The player-controlled body: a fixed-size box at `(x, y)` with a constant
/// downward acceleration `gravity` and a decaying upward force accumulator.
pub struct PlayerBody {
    /// Centre x in micro-units; constant during a run.
    pub x: i64,
    /// Centre y in micro-units; updated every step.
    pub y: i64,
    /// Bounding-box width in micro-units.
    pub width: i64,
    /// Bounding-box height in micro-units.
    pub height: i64,
    /// Downward acceleration magnitude in milli-rate; constant during a run.
    pub gravity: i64,
    /// Upward impulse accumulator in milli-rate; decays every step.
    pub force: i64,
}

impl PlayerBody {
    /// Well-formedness: positive sizes, a non-negative force and gravity, and
    /// everything inside the machine bounds.
    pub open spec fn wf(self) -> bool {
        &&& 0 < self.width <= COORD_LIMIT
        &&& 0 < self.height <= COORD_LIMIT
        &&& 0 <= self.gravity <= RATE_LIMIT
        &&& 0 <= self.force <= RATE_LIMIT
        &&& -COORD_LIMIT <= self.x <= COORD_LIMIT
        &&& -COORD_LIMIT <= self.y <= COORD_LIMIT
    }

    /// A new body at `(x, y)` with zero stored force.
    pub fn new(x: i64, y: i64, width: i64, height: i64, gravity: i64) -> (p: PlayerBody)
        requires
            0 < width <= COORD_LIMIT,
            0 < height <= COORD_LIMIT,
            0 <= gravity <= RATE_LIMIT,
            -COORD_LIMIT <= x <= COORD_LIMIT,
            -COORD_LIMIT <= y <= COORD_LIMIT,
        ensures
            p == (PlayerBody { x, y, width, height, gravity, force: 0 }),
            p.wf(),
    {
        PlayerBody { x, y, width, height, gravity, force: 0 }
    }

    /// One simulation step: move `y` by exactly `(force - gravity) * dt`,
    /// then decay the force (halve above the floor, zero otherwise).
    pub fn step(&mut self, dt: i64)
        requires
            old(self).wf(),
            0 < dt <= DT_LIMIT,
            -COORD_LIMIT <= moved_y(old(self).y as int, old(self).force as int,
                old(self).gravity as int, dt as int) <= COORD_LIMIT,
        ensures
            final(self).y == moved_y(old(self).y as int, old(self).force as int,
                old(self).gravity as int, dt as int),
            final(self).force == decayed_force(old(self).force as int),
            final(self).x == old(self).x,
            final(self).width == old(self).width,
            final(self).height == old(self).height,
            final(self).gravity == old(self).gravity,
            final(self).wf(),
    {
        let rate: i64 = self.force - self.gravity;
        assert(-(RATE_LIMIT * DT_LIMIT) <= rate * dt <= RATE_LIMIT * DT_LIMIT)
            by (nonlinear_arith)
            requires
                -RATE_LIMIT <= rate <= RATE_LIMIT,
                0 < dt <= DT_LIMIT,
        ;
        let delta: i64 = rate * dt;
        self.y = self.y + delta;
        if self.force > FORCE_DECAY_FLOOR {
            self.force = self.force / 2;
        } else {
            self.force = 0;
        }
    }

    /// One flap: add the fixed impulse to the stored force, unconditionally.
    pub fn apply_impulse(&mut self)
        requires
            old(self).wf(),
            old(self).force + PLAYER_FORCE_ON_FLAP <= RATE_LIMIT,
        ensures
            final(self).force == old(self).force + PLAYER_FORCE_ON_FLAP,
            final(self).x == old(self).x,
            final(self).y == old(self).y,
            final(self).width == old(self).width,
            final(self).height == old(self).height,
            final(self).gravity == old(self).gravity,
            final(self).wf(),
    {
        self.force = self.force + PLAYER_FORCE_ON_FLAP;
    }
}

/// The force left after applying the flap impulse `k` times in a row with no
/// decay in between.
pub open spec fn impulses_applied(f: int, k: nat) -> int
    decreases k,
{
    if k == 0 {
        f
    } else {
        impulses_applied(f, (k - 1) as nat) + PLAYER_FORCE_ON_FLAP
    }
}

/// Decay floors exactly: any force at or below the floor decays to zero.
pub proof fn lemma_decay_at_or_below_floor_zeroes(f: int)
    requires
        f <= FORCE_DECAY_FLOOR as int,
    ensures
        decayed_force(f) == 0,
{
}

/// Decay halves exactly: an even force above the floor decays to exactly
/// half its value.
pub proof fn lemma_decay_above_floor_halves(f: int)
    requires
        f > FORCE_DECAY_FLOOR as int,
        f % 2 == 0,
    ensures
        decayed_force(f) == f / 2,
        2 * decayed_force(f) == f,
{
    vstd::arithmetic::div_mod::lemma_fundamental_div_mod(f, 2);
}

/// Impulse stacking: `k` consecutive flaps with no decay in between add
/// exactly `k * PLAYER_FORCE_ON_FLAP` to the stored force.
pub proof fn lemma_impulse_accumulates(f: int, k: nat)
    ensures
        impulses_applied(f, k) == f + k * PLAYER_FORCE_ON_FLAP,
    decreases k,
{
    if k > 0 {
        lemma_impulse_accumulates(f, (k - 1) as nat);
    }
}

} // verus!
