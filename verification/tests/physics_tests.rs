use arena_duel::direction::Direction;
use arena_duel::geom::clamp_i64;
use arena_duel::objects::{Entity, Weapon, WeaponKind};

fn entity(name: &str, x: i64, y: i64, size: i64, speed: i64) -> Entity {
    Entity {
        name: name.to_owned(),
        size,
        speed,
        direction_x: Direction::Pos,
        direction_y: Direction::Pos,
        x,
        y,
        score: 10,
        is_killer: false,
    }
}

#[test]
fn movement_is_linear_in_elapsed_time() {
    let mut e = entity("a", 100, 100, 50, 200);
    e.direction_y = Direction::Neg;
    e.move_frame(3);
    assert_eq!(e.x, 100 + 200 * 3);
    assert_eq!(e.y, 100 - 200 * 3);
}

#[test]
fn zero_elapsed_time_is_a_no_op() {
    let mut e = entity("a", 42, -7, 50, 500);
    e.move_frame(0);
    assert_eq!(e.x, 42);
    assert_eq!(e.y, -7);
}

#[test]
fn collision_test_is_symmetric() {
    let a = entity("a", 0, 0, 50, 200);
    let b = entity("b", 46, 40, 50, 200);
    assert!(a.collides_with(&b));
    assert_eq!(a.collides_with(&b), b.collides_with(&a));

    let far = entity("c", 1000, 1000, 50, 200);
    assert!(!a.collides_with(&far));
    assert_eq!(a.collides_with(&far), far.collides_with(&a));
}

#[test]
fn touching_edges_do_not_collide() {
    let a = entity("a", 0, 0, 50, 200);
    let b = entity("b", 50, 0, 50, 200);
    assert!(!a.collides_with(&b));
}

#[test]
fn resolution_separates_along_smaller_overlap_axis() {
    // overlap_x = 4, overlap_y = 10: the x axis is resolved, 2 units each.
    let mut e1 = entity("a", 0, 0, 50, 200);
    let mut e2 = entity("b", 46, 40, 50, 250);
    let killed = e1.switch_direction(&mut e2);
    assert!(!killed);
    assert_eq!(e1.x, -2);
    assert_eq!(e2.x, 48);
    // only the faster entity flips when directions match
    assert_eq!(e1.direction_x, Direction::Pos);
    assert_eq!(e2.direction_x, Direction::Neg);
    // the y axis is untouched
    assert_eq!(e1.y, 0);
    assert_eq!(e2.y, 40);
    assert_eq!(e1.direction_y, Direction::Pos);
    assert_eq!(e2.direction_y, Direction::Pos);
    // penetration on the resolved axis is gone
    assert!(!e1.collides_with(&e2));
}

#[test]
fn equal_speeds_flip_both_directions() {
    let mut e1 = entity("a", 0, 0, 50, 200);
    let mut e2 = entity("b", 46, 40, 50, 200);
    e1.switch_direction(&mut e2);
    assert_eq!(e1.direction_x, Direction::Neg);
    assert_eq!(e2.direction_x, Direction::Neg);
}

#[test]
fn opposite_directions_flip_both() {
    let mut e1 = entity("a", 0, 0, 50, 200);
    let mut e2 = entity("b", 46, 40, 50, 250);
    e2.direction_x = Direction::Neg;
    e1.switch_direction(&mut e2);
    assert_eq!(e1.direction_x, Direction::Neg);
    assert_eq!(e2.direction_x, Direction::Pos);
}

#[test]
fn overlap_tie_resolves_the_vertical_axis() {
    // equal overlap on both axes: the y axis is chosen
    let mut e1 = entity("a", 0, 0, 50, 200);
    let mut e2 = entity("b", 40, 40, 50, 250);
    e1.switch_direction(&mut e2);
    assert_eq!(e1.x, 0);
    assert_eq!(e2.x, 40);
    assert_eq!(e1.y, -5);
    assert_eq!(e2.y, 45);
}

#[test]
fn no_overlap_means_no_resolution() {
    let mut e1 = entity("a", 0, 0, 50, 200);
    let mut e2 = entity("b", 500, 500, 50, 250);
    let killed = e1.switch_direction(&mut e2);
    assert!(!killed);
    assert_eq!(e1.x, 0);
    assert_eq!(e2.x, 500);
    assert_eq!(e1.direction_x, Direction::Pos);
    assert_eq!(e2.direction_x, Direction::Pos);
}

#[test]
fn killer_consumes_flag_against_opponent_score() {
    let mut e1 = entity("a", 0, 0, 50, 200);
    let mut e2 = entity("b", 46, 40, 50, 250);
    e1.is_killer = true;
    let killed = e1.switch_direction(&mut e2);
    assert!(killed);
    assert!(!e1.is_killer);
    assert_eq!(e1.score, 10);
    assert_eq!(e2.score, 9);
}

#[test]
fn bounce_reflects_at_far_boundary() {
    // arena span [100, 900], entity size 50: positions are clamped into
    // [100, 850].  An entity one unit short of the far border moving Pos
    // at speed 500 overshoots after one unit of time.
    let mut e = entity("a", 899, 400, 50, 500);
    e.direction_y = Direction::Neg; // keep y still clamped at its floor
    e.y = 100;
    e.move_frame(1);
    assert!(e.x > 900);
    let raw_x = e.x;
    let raw_y = e.y;
    e.x = clamp_i64(e.x, 100, 850);
    e.y = clamp_i64(e.y, 100, 850);
    e.check_bounce(raw_x, raw_y);
    assert_eq!(e.x, 850);
    assert_eq!(e.direction_x, Direction::Neg);
    // one more frame moves it back toward the interior
    e.move_frame(1);
    assert!(e.x < 850);
}

#[test]
fn bounce_reflects_at_near_boundary() {
    let mut e = entity("a", 101, 400, 50, 500);
    e.direction_x = Direction::Neg;
    e.move_frame(1);
    assert!(e.x < 100);
    let raw_x = e.x;
    let raw_y = e.y;
    e.x = clamp_i64(e.x, 100, 850);
    e.y = clamp_i64(e.y, 100, 850);
    e.check_bounce(raw_x, raw_y);
    assert_eq!(e.x, 100);
    assert_eq!(e.direction_x, Direction::Pos);
}

#[test]
fn clamp_returns_nearest_bound() {
    assert_eq!(clamp_i64(5, 10, 20), 10);
    assert_eq!(clamp_i64(25, 10, 20), 20);
    assert_eq!(clamp_i64(15, 10, 20), 15);
}

#[test]
fn attached_weapon_sits_by_the_facing_edge() {
    let mut e = entity("a", 100, 200, 80, 200);
    let w = Weapon { size: 40, x: 0, y: 0, is_placed: false, kind: WeaponKind::KillGrant };
    let (px, py) = e.attach_weapon(&w);
    assert_eq!(px, 180);
    assert_eq!(py, 220);
    e.direction_x = Direction::Neg;
    let (qx, qy) = e.attach_weapon(&w);
    assert_eq!(qx, 60);
    assert_eq!(qy, 220);
}

#[test]
fn catch_test_uses_the_weapon_box() {
    let e = entity("a", 0, 0, 50, 200);
    let on = Weapon { size: 25, x: 40, y: 40, is_placed: true, kind: WeaponKind::KillGrant };
    let off = Weapon { size: 25, x: 50, y: 40, is_placed: true, kind: WeaponKind::KillGrant };
    assert!(e.catch_weapon(&on));
    assert!(!e.catch_weapon(&off));
}

#[test]
fn on_catch_applies_each_effect_once() {
    let mut e = entity("a", 0, 0, 50, 200);
    let mut boost = Weapon { size: 25, x: 0, y: 0, is_placed: true, kind: WeaponKind::SpeedBoost(100) };
    boost.on_catch(&mut e);
    assert_eq!(e.speed, 300);
    assert!(!boost.is_placed);

    let mut sword = Weapon { size: 25, x: 0, y: 0, is_placed: true, kind: WeaponKind::KillGrant };
    sword.on_catch(&mut e);
    assert!(e.is_killer);
    assert!(!sword.is_placed);
    assert_eq!(e.speed, 300);
    assert_eq!(e.score, 10);
}
