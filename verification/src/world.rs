//! The aggregate simulation state and the per-step orchestration: player
//! update, flap impulse, interval-gated spawning, obstacle motion with
//! off-screen culling, and the collision scan.

use vstd::prelude::*;

use crate::collision::detect_collisions;
use crate::collision::scan_events;
use crate::collision::CollisionEvent;
use crate::config::COORD_LIMIT;
use crate::config::DT_LIMIT;
use crate::config::FORCE_DECAY_FLOOR;
use crate::config::GRAVITY;
use crate::config::PILLAR_CULL_X;
use crate::config::PILLAR_HEIGHT_SCALE_FACTOR;
use crate::config::PILLAR_SPAWN_INTERVAL;
use crate::config::PILLAR_SPAWN_OFFSET_BOUND;
use crate::config::PLAYER_FORCE_ON_FLAP;
use crate::config::PLAYER_SIZE;
use crate::config::PLAYER_START_X;
use crate::config::PLAYER_START_Y;
use crate::config::RATE_LIMIT;
use crate::config::WORLD_DEFAULT_SPEED;
use crate::obstacle::moved_x;
use crate::obstacle::spawned_obstacle;
use crate::obstacle::Obstacle;
use crate::obstacle::ObstacleSpawner;
use crate::player::decayed_force;
use crate::player::moved_y;
use crate::player::PlayerBody;
use crate::sampling::sample_below;

verus! {

/// The player state after one step: y moved by exactly
/// `(force - gravity) * dt`, then the force decayed, then the flap impulse
/// added if the activation signal was asserted this step.
pub open spec fn player_after(p: PlayerBody, dt: int, activation: bool) -> PlayerBody {
    let decayed = decayed_force(p.force as int);
    let force = if activation {
        decayed + PLAYER_FORCE_ON_FLAP as int
    } else {
        decayed
    };
    PlayerBody {
        x: p.x,
        y: moved_y(p.y as int, p.force as int, p.gravity as int, dt) as i64,
        width: p.width,
        height: p.height,
        gravity: p.gravity,
        force: force as i64,
    }
}

/// The obstacle list after one step of motion and culling: every obstacle
/// scrolls left by exactly `(speed + world_speed) * dt`, and the ones whose
/// new centre x falls left of `cull_x` are removed; the survivors keep their
/// relative order.
pub open spec fn advance_cull(obs: Seq<Obstacle>, world_speed: int, dt: int, cull_x: int) -> Seq<
    Obstacle,
>
    decreases obs.len(),
{
    if obs.len() == 0 {
        Seq::empty()
    } else {
        let rest = advance_cull(obs.drop_last(), world_speed, dt, cull_x);
        let o = obs.last();
        let nx = moved_x(o.x as int, o.speed as int, world_speed, dt);
        if nx >= cull_x {
            rest.push(
                Obstacle { x: nx as i64, y: o.y, width: o.width, height: o.height, speed: o.speed },
            )
        } else {
            rest
        }
    }
}

/// Culling is sound: every survivor of a step of obstacle motion is well
/// formed and sits at or right of the culling threshold, so the live list
/// never grows without bound in a scrolling world.
pub proof fn lemma_advance_cull_survivors(obs: Seq<Obstacle>, world_speed: int, dt: int, cull_x: int)
    requires
        forall|i: int| 0 <= i < obs.len() ==> (#[trigger] obs[i]).wf(),
        0 <= world_speed <= RATE_LIMIT,
        0 < dt <= DT_LIMIT,
        -COORD_LIMIT <= cull_x,
    ensures
        forall|j: int| 0 <= j < advance_cull(obs, world_speed, dt, cull_x).len() ==> (
        #[trigger] advance_cull(obs, world_speed, dt, cull_x)[j]).wf(),
        forall|j: int| 0 <= j < advance_cull(obs, world_speed, dt, cull_x).len() ==> (
        #[trigger] advance_cull(obs, world_speed, dt, cull_x)[j]).x >= cull_x,
    decreases obs.len(),
{
    if obs.len() > 0 {
        lemma_advance_cull_survivors(obs.drop_last(), world_speed, dt, cull_x);
        let o = obs.last();
        assert(o.wf());
        assert((o.speed + world_speed) * dt >= 0) by (nonlinear_arith)
            requires
                o.speed + world_speed >= 0,
                dt > 0,
        ;
        let r = advance_cull(obs, world_speed, dt, cull_x);
        let rest = advance_cull(obs.drop_last(), world_speed, dt, cull_x);
        let nx = moved_x(o.x as int, o.speed as int, world_speed, dt);
        if nx >= cull_x {
            let m = Obstacle { x: nx as i64, y: o.y, width: o.width, height: o.height, speed: o.speed };
            assert(nx <= o.x);
            assert(m.wf());
            assert(r == rest.push(m));
            assert(forall|j: int| 0 <= j < rest.len() ==> r[j] == #[trigger] rest[j]);
            assert(r[r.len() - 1] == m);
        } else {
            assert(r == rest);
        }
    }
}

/// The whole simulation: one player, the scrolling obstacles, the spawner,
/// and the world's scroll-speed and culling configuration.
pub struct World {
    /// The one player body.
    pub player: PlayerBody,
    /// The live obstacles, oldest first.
    pub obstacles: Vec<Obstacle>,
    /// The interval-gated obstacle spawner.
    pub spawner: ObstacleSpawner,
    /// Scroll speed added to every obstacle's own speed, in milli-rate.
    pub world_speed: i64,
    /// Obstacles whose centre x falls left of this are culled.
    pub cull_x: i64,
}

/// Everything one step changes, given the two spawn samples: relates the
/// pre-state, the post-state and the events of `step_with_samples`.
pub open spec fn step_post(
    pre: World,
    post: World,
    dt: i64,
    activation: bool,
    height: i64,
    y_offset: i64,
    events: Seq<CollisionEvent>,
) -> bool {
    let crossed = pre.spawner.elapsed + dt >= pre.spawner.interval;
    let arrivals = if crossed {
        pre.obstacles@.push(spawned_obstacle(height, y_offset))
    } else {
        pre.obstacles@
    };
    &&& post.player == player_after(pre.player, dt as int, activation)
    &&& post.obstacles@ == advance_cull(
        arrivals,
        pre.world_speed as int,
        dt as int,
        pre.cull_x as int,
    )
    &&& post.spawner.interval == pre.spawner.interval
    &&& post.spawner.elapsed == if crossed {
        0int
    } else {
        pre.spawner.elapsed + dt
    }
    &&& post.world_speed == pre.world_speed
    &&& post.cull_x == pre.cull_x
    &&& events == scan_events(post.player, post.obstacles@)
}

impl World {
    /// Well-formedness of the aggregate: every part well formed and the
    /// configuration inside machine bounds.
    pub open spec fn wf(self) -> bool {
        &&& self.player.wf()
        &&& self.spawner.wf()
        &&& forall|i: int| 0 <= i < self.obstacles@.len() ==> self.obstacles@[i].wf()
        &&& 0 <= self.world_speed <= RATE_LIMIT
        &&& -COORD_LIMIT <= self.cull_x <= COORD_LIMIT
    }

    /// A fresh world: the player at the start position with zero force, no
    /// obstacles, a full spawn interval pending, and the default scroll
    /// speed and culling threshold.
    pub fn new() -> (w: World)
        ensures
            w.player == (PlayerBody {
                x: PLAYER_START_X,
                y: PLAYER_START_Y,
                width: PLAYER_SIZE,
                height: PLAYER_SIZE,
                gravity: GRAVITY,
                force: 0,
            }),
            w.obstacles@.len() == 0,
            w.spawner == (ObstacleSpawner { elapsed: 0, interval: PILLAR_SPAWN_INTERVAL }),
            w.world_speed == WORLD_DEFAULT_SPEED,
            w.cull_x == PILLAR_CULL_X,
            w.wf(),
    {
        World {
            player: PlayerBody::new(
                PLAYER_START_X,
                PLAYER_START_Y,
                PLAYER_SIZE,
                PLAYER_SIZE,
                GRAVITY,
            ),
            obstacles: Vec::new(),
            spawner: ObstacleSpawner::new(PILLAR_SPAWN_INTERVAL),
            world_speed: WORLD_DEFAULT_SPEED,
            cull_x: PILLAR_CULL_X,
        }
    }

    /// One deterministic step, with the spawn samples injected by the
    /// caller: update the player, apply the impulse if the activation signal
    /// is asserted, tick the spawner, advance and cull every obstacle (a
    /// just-spawned one advances with the rest), then scan for collisions
    /// against the player's post-update position and report them in index
    /// order.
    pub fn step_with_samples(
        &mut self,
        dt: i64,
        activation: bool,
        height: i64,
        y_offset: i64,
    ) -> (events: Vec<CollisionEvent>)
        requires
            old(self).wf(),
            0 < dt <= DT_LIMIT,
            0 <= height < PILLAR_HEIGHT_SCALE_FACTOR,
            -PILLAR_SPAWN_OFFSET_BOUND <= y_offset < PILLAR_SPAWN_OFFSET_BOUND,
            -COORD_LIMIT <= moved_y(old(self).player.y as int, old(self).player.force as int,
                old(self).player.gravity as int, dt as int) <= COORD_LIMIT,
        ensures
            final(self).wf(),
            step_post(*old(self), *final(self), dt, activation, height, y_offset, events@),
    {
        self.player.step(dt);
        if activation {
            proof {
                let f = old(self).player.force as int;
                if f > FORCE_DECAY_FLOOR as int {
                    vstd::arithmetic::div_mod::lemma_div_is_ordered(f, RATE_LIMIT as int, 2);
                }
            }
            self.player.apply_impulse();
        }
        let spawned = self.spawner.tick(dt, height, y_offset);
        match spawned {
            Some(o) => self.obstacles.push(o),
            None => (),
        }
        let ghost arrivals = self.obstacles@;
        let mut moved: Vec<Obstacle> = Vec::new();
        let n = self.obstacles.len();
        for i in 0..n
            invariant
                n == self.obstacles@.len(),
                self.obstacles@ == arrivals,
                forall|j: int| 0 <= j < self.obstacles@.len() ==> self.obstacles@[j].wf(),
                0 <= self.world_speed <= RATE_LIMIT,
                0 < dt <= DT_LIMIT,
                -COORD_LIMIT <= self.cull_x <= COORD_LIMIT,
                moved@ == advance_cull(self.obstacles@.take(i as int), self.world_speed as int,
                    dt as int, self.cull_x as int),
                forall|j: int| 0 <= j < moved@.len() ==> moved@[j].wf(),
        {
            let o = self.obstacles[i];
            let nx = o.next_x(self.world_speed, dt);
            proof {
                assert(self.obstacles@.take(i + 1).drop_last() =~= self.obstacles@.take(i as int));
                assert(self.obstacles@.take(i + 1).last() == self.obstacles@[i as int]);
            }
            if nx >= self.cull_x {
                let m = Obstacle { x: nx, y: o.y, width: o.width, height: o.height, speed: o.speed };
                moved.push(m);
            }
        }
        proof {
            assert(arrivals.take(n as int) =~= arrivals);
        }
        self.obstacles = moved;
        let events = detect_collisions(&self.player, &self.obstacles);
        events
    }

    /// One step driven by the real randomness source: draw the height and
    /// vertical-offset samples from their documented ranges and take the
    /// same deterministic step. Everything except the two sampled fields of
    /// a spawned obstacle is pinned exactly; of the samples only their
    /// ranges can be promised.
    pub fn step(&mut self, dt: i64, activation: bool) -> (events: Vec<CollisionEvent>)
        requires
            old(self).wf(),
            0 < dt <= DT_LIMIT,
            -COORD_LIMIT <= moved_y(old(self).player.y as int, old(self).player.force as int,
                old(self).player.gravity as int, dt as int) <= COORD_LIMIT,
        ensures
            final(self).wf(),
            exists|height: i64, y_offset: i64|
                #![trigger step_post(*old(self), *final(self), dt, activation, height, y_offset, events@)]
                {
                    &&& 0 <= height < PILLAR_HEIGHT_SCALE_FACTOR
                    &&& -PILLAR_SPAWN_OFFSET_BOUND <= y_offset < PILLAR_SPAWN_OFFSET_BOUND
                    &&& step_post(*old(self), *final(self), dt, activation, height, y_offset,
                        events@)
                },
    {
        let height = sample_below(PILLAR_HEIGHT_SCALE_FACTOR as u64) as i64;
        let offset_raw = sample_below((2 * PILLAR_SPAWN_OFFSET_BOUND) as u64);
        let y_offset = offset_raw as i64 - PILLAR_SPAWN_OFFSET_BOUND;
        let events = self.step_with_samples(dt, activation, height, y_offset);
        proof {
            assert(step_post(*old(self), *self, dt, activation, height, y_offset, events@));
        }
        events
    }

    /// Whether any obstacle currently overlaps the player: true exactly when
    /// the last scan of the current state would report at least one event.
    pub fn in_collision(&self) -> (r: bool)
        requires
            self.wf(),
        ensures
            r == (scan_events(self.player, self.obstacles@).len() > 0),
    {
        let events = detect_collisions(&self.player, &self.obstacles);
        events.len() > 0
    }
}

} // verus!
