//! Strict axis-aligned bounding-box collision between the player and the
//! pillar obstacles, and the per-step scan that turns overlaps into events.

use vstd::prelude::*;

use crate::config::COORD_LIMIT;
use crate::obstacle::Obstacle;
use crate::player::PlayerBody;

verus! {

/// An axis-aligned rectangle given by its centre and full extents.
#[derive(Clone, Copy, PartialEq, Eq, Structural, Debug)]
pub struct Rect {
    /// Centre x in micro-units.
    pub x: i64,
    /// Centre y in micro-units.
    pub y: i64,
    /// Full width in micro-units.
    pub width: i64,
    /// Full height in micro-units.
    pub height: i64,
}

/// Well-formedness: non-negative extents, everything inside machine bounds.
pub open spec fn rect_wf(r: Rect) -> bool {
    &&& 0 <= r.width <= COORD_LIMIT
    &&& 0 <= r.height <= COORD_LIMIT
    &&& -COORD_LIMIT <= r.x <= COORD_LIMIT
    &&& -COORD_LIMIT <= r.y <= COORD_LIMIT
}

/// Strict overlap of two centre/extent rectangles. Written with doubled
/// differences so half-extents never need dividing: `a.left < b.right` is
/// `2*(a.x - b.x) < a.width + b.width`, and likewise for the other three
/// edges. All four comparisons are strict, so rectangles sharing only a
/// boundary edge do not overlap.
pub open spec fn rects_overlap(a: Rect, b: Rect) -> bool {
    &&& 2 * (a.x - b.x) < a.width + b.width
    &&& 2 * (b.x - a.x) < a.width + b.width
    &&& 2 * (a.y - b.y) < a.height + b.height
    &&& 2 * (b.y - a.y) < a.height + b.height
}

/// The player's collision box: its full width and height around its centre.
pub open spec fn player_rect(p: PlayerBody) -> Rect {
    Rect { x: p.x, y: p.y, width: p.width, height: p.height }
}

/// A pillar's collision box: a square of side `width` around its centre. A
/// pillar's `height` sets only its drawn extent and plays no part in
/// collision — a deliberate design choice of this simulation, stated here so
/// nobody mistakes it for an oversight.
pub open spec fn pillar_rect(o: Obstacle) -> Rect {
    Rect { x: o.x, y: o.y, width: o.width, height: o.width }
}

/// Strict AABB overlap test on two rectangles.
pub fn rects_collide(a: &Rect, b: &Rect) -> (r: bool)
    requires
        rect_wf(*a),
        rect_wf(*b),
    ensures
        r == rects_overlap(*a, *b),
{
    2 * (a.x - b.x) < a.width + b.width && 2 * (b.x - a.x) < a.width + b.width && 2 * (a.y
        - b.y) < a.height + b.height && 2 * (b.y - a.y) < a.height + b.height
}

/// Does this pillar hit the player this step?
pub fn collide(player: &PlayerBody, pillar: &Obstacle) -> (r: bool)
    requires
        player.wf(),
        pillar.wf(),
    ensures
        r == rects_overlap(player_rect(*player), pillar_rect(*pillar)),
{
    let a = Rect { x: player.x, y: player.y, width: player.width, height: player.height };
    let b = Rect { x: pillar.x, y: pillar.y, width: pillar.width, height: pillar.width };
    rects_collide(&a, &b)
}

/// One collision this step: the player's box overlaps the box of the
/// obstacle at this index of the world's obstacle list.
#[derive(Clone, Copy, PartialEq, Eq, Structural, Debug)]
pub struct CollisionEvent {
    /// Index of the colliding obstacle in the list that was scanned.
    pub obstacle: usize,
}

/// The events a scan of `obs` against player `p` produces: one event per
/// overlapping obstacle, in index order.
pub open spec fn scan_events(p: PlayerBody, obs: Seq<Obstacle>) -> Seq<CollisionEvent>
    decreases obs.len(),
{
    if obs.len() == 0 {
        Seq::empty()
    } else {
        let rest = scan_events(p, obs.drop_last());
        if rects_overlap(player_rect(p), pillar_rect(obs.last())) {
            rest.push(CollisionEvent { obstacle: (obs.len() - 1) as usize })
        } else {
            rest
        }
    }
}

/// Scan every obstacle against the player and report each overlap as one
/// event, in index order. A pair that stays overlapped across steps is
/// reported again on every step.
pub fn detect_collisions(player: &PlayerBody, obstacles: &Vec<Obstacle>) -> (events: Vec<
    CollisionEvent,
>)
    requires
        player.wf(),
        forall|i: int| 0 <= i < obstacles@.len() ==> obstacles@[i].wf(),
    ensures
        events@ == scan_events(*player, obstacles@),
{
    let mut events: Vec<CollisionEvent> = Vec::new();
    let n = obstacles.len();
    for i in 0..n
        invariant
            n == obstacles@.len(),
            player.wf(),
            forall|j: int| 0 <= j < obstacles@.len() ==> obstacles@[j].wf(),
            events@ == scan_events(*player, obstacles@.take(i as int)),
    {
        let hit = collide(player, &obstacles[i]);
        proof {
            assert(obstacles@.take(i + 1).drop_last() =~= obstacles@.take(i as int));
            assert(obstacles@.take(i + 1).last() == obstacles@[i as int]);
        }
        if hit {
            events.push(CollisionEvent { obstacle: i });
        }
    }
    proof {
        assert(obstacles@.take(n as int) =~= obstacles@);
    }
    events
}

/// The scan is exact: every event points at an overlapping obstacle, every
/// overlapping obstacle gets an event, and the events come in strictly
/// increasing index order — so each colliding pair is reported exactly once
/// per scan.
pub proof fn lemma_scan_events_exact(p: PlayerBody, obs: Seq<Obstacle>)
    requires
        obs.len() <= usize::MAX,
    ensures
        forall|k: int| 0 <= k < scan_events(p, obs).len() ==> (#[trigger] scan_events(p, obs)[k]).obstacle
            < obs.len(),
        forall|k: int| 0 <= k < scan_events(p, obs).len() ==> rects_overlap(player_rect(p),
            pillar_rect(obs[(#[trigger] scan_events(p, obs)[k]).obstacle as int])),
        forall|i: int| 0 <= i < obs.len() && rects_overlap(player_rect(p), pillar_rect(obs[i]))
            ==> scan_events(p, obs).contains(CollisionEvent { obstacle: i as usize }),
        forall|k1: int, k2: int| 0 <= k1 < k2 < scan_events(p, obs).len() ==> (
        #[trigger] scan_events(p, obs)[k1]).obstacle < (#[trigger] scan_events(p, obs)[k2]).obstacle,
    decreases obs.len(),
{
    if obs.len() > 0 {
        let rest = obs.drop_last();
        lemma_scan_events_exact(p, rest);
        assert(forall|i: int| 0 <= i < rest.len() ==> obs[i] == rest[i]);
        let s = scan_events(p, obs);
        let r = scan_events(p, rest);
        assert(forall|e: CollisionEvent| r.contains(e) ==> s.contains(e)) by {
            assert forall|e: CollisionEvent| r.contains(e) implies s.contains(e) by {
                let j = choose|j: int| 0 <= j < r.len() && r[j] == e;
                assert(s[j] == e);
            }
        }
        if rects_overlap(player_rect(p), pillar_rect(obs.last())) {
            assert(s.last() == (CollisionEvent { obstacle: (obs.len() - 1) as usize }));
        }
        assert forall|i: int|
            0 <= i < obs.len() && rects_overlap(player_rect(p), pillar_rect(obs[i])) implies s
            .contains(CollisionEvent { obstacle: i as usize }) by {
            if i < obs.len() - 1 {
                assert(r.contains(CollisionEvent { obstacle: i as usize }));
            } else {
                assert(s[s.len() - 1] == (CollisionEvent { obstacle: i as usize }));
            }
        }
    }
}

/// Overlap is symmetric: the test gives the same answer with the two
/// rectangles swapped.
pub proof fn lemma_overlap_symmetric(a: Rect, b: Rect)
    ensures
        rects_overlap(a, b) == rects_overlap(b, a),
{
}

/// Overlap is strict: two rectangles sharing only a boundary edge (any of
/// the four) do not overlap.
pub proof fn lemma_edge_touch_is_not_overlap(a: Rect, b: Rect)
    requires
        2 * (b.x - a.x) == a.width + b.width || 2 * (a.x - b.x) == a.width + b.width || 2 * (b.y
            - a.y) == a.height + b.height || 2 * (a.y - b.y) == a.height + b.height,
    ensures
        !rects_overlap(a, b),
{
}

} // verus!
