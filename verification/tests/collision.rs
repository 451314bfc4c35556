//! Concrete scenarios for the strict axis-aligned collision test.

use flappy_core::collision::collide;
use flappy_core::collision::detect_collisions;
use flappy_core::collision::rects_collide;
use flappy_core::collision::Rect;
use flappy_core::obstacle::Obstacle;
use flappy_core::player::PlayerBody;

fn player_at(x: i64, y: i64) -> PlayerBody {
    PlayerBody::new(x, y, 50_000_000, 50_000_000, 200_000)
}

fn pillar_at(x: i64, y: i64) -> Obstacle {
    Obstacle { x, y, width: 30_000_000, height: 30_000_000, speed: 0 }
}

#[test]
fn overlapping_boxes_collide() {
    // player at (0,0) size (50,50), obstacle at (0,0) size (30,30) => true
    let p = player_at(0, 0);
    assert!(collide(&p, &pillar_at(0, 0)));
}

#[test]
fn distant_boxes_do_not_collide() {
    // obstacle moved to (100, 0) => false
    let p = player_at(0, 0);
    assert!(!collide(&p, &pillar_at(100_000_000, 0)));
}

#[test]
fn edge_touching_is_not_a_collision() {
    // player right edge at 25 units, pillar square side 30 units: with its
    // centre at 40 units its left edge sits exactly on the player's right
    let p = player_at(0, 0);
    assert!(!collide(&p, &pillar_at(40_000_000, 0)));
    // one micro-unit closer and they strictly overlap
    assert!(collide(&p, &pillar_at(39_999_999, 0)));
    // likewise for a shared horizontal edge: 25 + 15 = 40 units above
    assert!(!collide(&p, &pillar_at(0, 40_000_000)));
    assert!(collide(&p, &pillar_at(0, 39_999_999)));
}

#[test]
fn collision_is_symmetric() {
    let a = Rect { x: 0, y: 0, width: 50_000_000, height: 50_000_000 };
    let b = Rect { x: 30_000_000, y: 10_000_000, width: 30_000_000, height: 30_000_000 };
    assert_eq!(rects_collide(&a, &b), rects_collide(&b, &a));
    let far = Rect { x: 300_000_000, y: 0, width: 30_000_000, height: 30_000_000 };
    assert_eq!(rects_collide(&a, &far), rects_collide(&far, &a));
}

#[test]
fn pillar_height_plays_no_part_in_collision() {
    // the pillar's collision box is a square of side `width`: a very tall
    // pillar whose square misses the player does not collide
    let p = player_at(0, 0);
    let tall = Obstacle { x: 0, y: 45_000_000, width: 30_000_000, height: 200_000_000, speed: 0 };
    assert!(!collide(&p, &tall));
    // the same box with `width` as tall as that height does collide
    let wide = Obstacle { x: 0, y: 45_000_000, width: 200_000_000, height: 30_000_000, speed: 0 };
    assert!(collide(&p, &wide));
}

#[test]
fn scan_reports_each_overlap_in_index_order() {
    let p = player_at(0, 0);
    let obstacles = vec![
        pillar_at(0, 0),
        pillar_at(200_000_000, 0),
        pillar_at(10_000_000, 10_000_000),
    ];
    let events = detect_collisions(&p, &obstacles);
    assert_eq!(events.len(), 2);
    assert_eq!(events[0].obstacle, 0);
    assert_eq!(events[1].obstacle, 2);
}

#[test]
fn scan_of_no_obstacles_is_empty() {
    let p = player_at(0, 0);
    let events = detect_collisions(&p, &Vec::new());
    assert!(events.is_empty());
}
