//! Pillar obstacles: leftward motion at a constant rate, and the
//! interval-gated spawner that creates them with sampled height and
//! vertical offset.

use vstd::prelude::*;

use crate::config::COORD_LIMIT;
use crate::config::DT_LIMIT;
use crate::config::PILLAR_DEFAULT_SPEED;
use crate::config::PILLAR_HEIGHT_SCALE_FACTOR;
use crate::config::PILLAR_SPAWN_OFFSET_BOUND;
use crate::config::PILLAR_SPAWN_X;
use crate::config::PILLAR_WIDTH;
use crate::config::RATE_LIMIT;

verus! {

/// The x position after one step of obstacle motion: the obstacle scrolls
/// left by exactly `(speed + world_speed) * dt` micro-units.
pub open spec fn moved_x(x: int, speed: int, world_speed: int, dt: int) -> int {
    x - (speed + world_speed) * dt
}

/// A pillar hazard: a box at `(x, y)` scrolling toward the player.
#[derive(Clone, Copy, PartialEq, Eq, Structural, Debug)]
pub struct Obstacle {
    /// Centre x in micro-units; decreases every step.
    pub x: i64,
    /// Centre y in micro-units.
    pub y: i64,
    /// Width in micro-units.
    pub width: i64,
    /// Height in micro-units; set at spawn, used for the drawn extent.
    pub height: i64,
    /// This pillar's own speed contribution in milli-rate, added to the
    /// world's scroll speed.
    pub speed: i64,
}

impl Obstacle {
    /// Well-formedness: non-negative sizes and speed inside machine bounds.
    pub open spec fn wf(self) -> bool {
        &&& 0 <= self.width <= COORD_LIMIT
        &&& 0 <= self.height <= COORD_LIMIT
        &&& 0 <= self.speed <= RATE_LIMIT
        &&& -COORD_LIMIT <= self.x <= COORD_LIMIT
        &&& -COORD_LIMIT <= self.y <= COORD_LIMIT
    }

    /// The x this obstacle will occupy after one step at the given world
    /// scroll speed; pure, with no bound on how far left that is.
    pub fn next_x(&self, world_speed: i64, dt: i64) -> (r: i64)
        requires
            self.wf(),
            0 <= world_speed <= RATE_LIMIT,
            0 < dt <= DT_LIMIT,
        ensures
            r == moved_x(self.x as int, self.speed as int, world_speed as int, dt as int),
            r <= self.x,
    {
        let rate: i64 = self.speed + world_speed;
        assert(0 <= rate * dt <= (RATE_LIMIT + RATE_LIMIT) * DT_LIMIT) by (nonlinear_arith)
            requires
                0 <= rate <= RATE_LIMIT + RATE_LIMIT,
                0 < dt <= DT_LIMIT,
        ;
        self.x - rate * dt
    }

    /// One step of motion: scroll left by exactly `(speed + world_speed) * dt`.
    pub fn advance(&mut self, world_speed: i64, dt: i64)
        requires
            old(self).wf(),
            0 <= world_speed <= RATE_LIMIT,
            0 < dt <= DT_LIMIT,
            moved_x(old(self).x as int, old(self).speed as int, world_speed as int,
                dt as int) >= -COORD_LIMIT,
        ensures
            final(self).x == moved_x(old(self).x as int, old(self).speed as int,
                world_speed as int, dt as int),
            final(self).y == old(self).y,
            final(self).width == old(self).width,
            final(self).height == old(self).height,
            final(self).speed == old(self).speed,
            final(self).wf(),
    {
        self.x = self.next_x(world_speed, dt);
    }
}

/// The obstacle a spawn produces from a height sample and a vertical offset
/// sample: fixed spawn x, fixed width, default speed.
pub open spec fn spawned_obstacle(height: i64, y_offset: i64) -> Obstacle {
    Obstacle {
        x: PILLAR_SPAWN_X,
        y: y_offset,
        width: PILLAR_WIDTH,
        height,
        speed: PILLAR_DEFAULT_SPEED,
    }
}

/// The interval-gated spawner: accumulates elapsed time and emits exactly one
/// obstacle whenever the accumulated time reaches the interval, then starts
/// counting from zero again (no catch-up spawns, never more than one per
/// step).
pub struct ObstacleSpawner {
    /// Milliseconds accumulated since the last spawn.
    pub elapsed: i64,
    /// Milliseconds between spawns.
    pub interval: i64,
}

impl ObstacleSpawner {
    /// Well-formedness: the accumulator never reaches the interval between
    /// calls, and the interval is positive and bounded.
    pub open spec fn wf(self) -> bool {
        &&& 0 <= self.elapsed < self.interval
        &&& 0 < self.interval <= DT_LIMIT
    }

    /// A fresh spawner that has just spawned (full interval until the first
    /// obstacle).
    pub fn new(interval: i64) -> (s: ObstacleSpawner)
        requires
            0 < interval <= DT_LIMIT,
        ensures
            s == (ObstacleSpawner { elapsed: 0, interval }),
            s.wf(),
    {
        ObstacleSpawner { elapsed: 0, interval }
    }

    /// One step of the spawner: add `dt` to the accumulator; if it reaches
    /// the interval, emit exactly one obstacle built from the two samples and
    /// reset the accumulator to zero, else emit nothing. The samples are
    /// injected by the caller so the spawner itself is deterministic.
    pub fn tick(&mut self, dt: i64, height: i64, y_offset: i64) -> (spawned: Option<Obstacle>)
        requires
            old(self).wf(),
            0 < dt <= DT_LIMIT,
            0 <= height < PILLAR_HEIGHT_SCALE_FACTOR,
            -PILLAR_SPAWN_OFFSET_BOUND <= y_offset < PILLAR_SPAWN_OFFSET_BOUND,
        ensures
            old(self).elapsed + dt >= old(self).interval ==> {
                &&& spawned == Some(spawned_obstacle(height, y_offset))
                &&& final(self).elapsed == 0
            },
            old(self).elapsed + dt < old(self).interval ==> {
                &&& spawned is None
                &&& final(self).elapsed == old(self).elapsed + dt
            },
            final(self).interval == old(self).interval,
            final(self).wf(),
            spawned is Some ==> spawned->Some_0.wf(),
    {
        let accumulated: i64 = self.elapsed + dt;
        if accumulated >= self.interval {
            self.elapsed = 0;
            Some(Obstacle {
                x: PILLAR_SPAWN_X,
                y: y_offset,
                width: PILLAR_WIDTH,
                height,
                speed: PILLAR_DEFAULT_SPEED,
            })
        } else {
            self.elapsed = accumulated;
            None
        }
    }
}

} // verus!
