use arena_duel::direction::Direction;
use arena_duel::objects::{Entity, WeaponKind};
use arena_duel::world::{set_catchable, World, INIT_SCORE, INIT_SPEED, SPEED_BOOST};

#[test]
fn new_world_starts_as_specified() {
    let w = World::new(1000, 900, 7);
    assert_eq!(w.entity1.name, "Ronaldo".to_owned());
    assert_eq!(w.entity2.name, "Messi".to_owned());
    assert_eq!(w.entity1.score, INIT_SCORE);
    assert_eq!(w.entity2.score, INIT_SCORE);
    assert_eq!(w.entity1.speed, INIT_SPEED);
    assert_eq!(w.entity2.speed, INIT_SPEED);
    assert!(!w.entity1.is_killer);
    assert!(!w.entity2.is_killer);
    assert_eq!(w.sword.kind, WeaponKind::KillGrant);
    assert_eq!(w.rabbit.kind, WeaponKind::SpeedBoost(SPEED_BOOST));
}

#[test]
fn arena_is_a_ten_percent_margin_of_the_viewport() {
    let w = World::new(1000, 900, 7);
    let edges = w.edges();
    assert_eq!(edges.x, 100);
    assert_eq!(edges.y, 90);
    assert_eq!(edges.w, 800);
    assert_eq!(edges.h, 720);
    assert_eq!(w.entity_size(), 80);
    assert_eq!(w.entity1.size, 80);
    assert_eq!(w.entity2.size, 80);
    assert_eq!(w.sword.size, 40);
    assert_eq!(w.rabbit.size, 40);
}

#[test]
fn start_positions_lie_inside_the_arena() {
    for seed in 0..20u64 {
        let w = World::new(1000, 900, seed);
        let edges = w.edges();
        assert!(edges.x <= w.entity1.x && w.entity1.x + w.entity1.size <= edges.x + edges.w);
        assert!(edges.y <= w.entity1.y && w.entity1.y + w.entity1.size <= edges.y + edges.h);
        assert!(edges.x <= w.entity2.x && w.entity2.x + w.entity2.size <= edges.x + edges.w);
        assert!(edges.y <= w.entity2.y && w.entity2.y + w.entity2.size <= edges.y + edges.h);
    }
}

#[test]
fn viewport_change_rescales_the_boxes() {
    let mut w = World::new(1000, 900, 7);
    w.set_viewport(2000, 1800);
    if w.entity1.score >= 1 && w.entity2.score >= 1 {
        w.update(0);
    }
    assert_eq!(w.entity1.size, 160);
    assert_eq!(w.sword.size, 80);
}

#[test]
fn pickup_is_single_use() {
    let mut w = World::new(1000, 900, 7);
    let edges = w.edges();
    // place the sword on the first entity only
    w.entity1.x = edges.x + 100;
    w.entity1.y = edges.y + 100;
    w.entity2.x = edges.x + 500;
    w.entity2.y = edges.y + 500;
    w.sword.is_placed = true;
    w.sword.x = w.entity1.x;
    w.sword.y = w.entity1.y;
    w.rabbit.is_placed = false;

    let caught = w.set_weapons_catchable();
    assert!(caught);
    assert!(w.entity1.is_killer);
    assert!(!w.sword.is_placed);
    assert!(!w.entity2.is_killer);
    assert_eq!(w.entity2.speed, INIT_SPEED);
    assert_eq!(w.entity2.score, INIT_SCORE);

    // the consumed placement cannot apply its effect again
    w.entity1.is_killer = false;
    let again = w.set_weapons_catchable();
    assert!(!again);
    assert!(!w.entity1.is_killer);
}

#[test]
fn catch_pass_applies_to_the_first_overlapping_entity() {
    let mut w = World::new(1000, 900, 7);
    let edges = w.edges();
    // both entities overlap the boost; only the first takes it
    w.entity1.x = edges.x + 100;
    w.entity1.y = edges.y + 100;
    w.entity2.x = edges.x + 110;
    w.entity2.y = edges.y + 110;
    w.sword.is_placed = false;
    w.rabbit.is_placed = true;
    w.rabbit.x = edges.x + 120;
    w.rabbit.y = edges.y + 120;

    let caught = set_catchable(&mut w.rabbit, &mut w.entity1, &mut w.entity2);
    assert!(caught);
    assert_eq!(w.entity1.speed, INIT_SPEED + SPEED_BOOST);
    assert_eq!(w.entity2.speed, INIT_SPEED);
    assert!(!w.rabbit.is_placed);
}

#[test]
fn wall_bounce_fires_during_a_frame() {
    let mut w = World::new(1000, 900, 7);
    let edges = w.edges();
    let es = w.entity_size();
    // aim the first entity at the right border, park the second far away
    w.entity1.x = edges.x + edges.w - es - 10;
    w.entity1.y = edges.y + 300;
    w.entity1.direction_x = Direction::Pos;
    w.entity1.direction_y = Direction::Pos;
    w.entity2.x = edges.x;
    w.entity2.y = edges.y;
    w.entity2.direction_x = Direction::Pos;
    w.entity2.direction_y = Direction::Pos;
    w.sword.is_placed = false;
    w.rabbit.is_placed = false;

    let ev = w.update(1);
    assert!(ev.wall);
    assert_eq!(w.entity1.x, edges.x + edges.w - es);
    assert_eq!(w.entity1.direction_x, Direction::Neg);
}

#[test]
fn update_reports_a_pickup_event() {
    let mut w = World::new(1000, 900, 7);
    let edges = w.edges();
    w.entity1.x = edges.x + 100;
    w.entity1.y = edges.y + 100;
    w.entity2.x = edges.x + 500;
    w.entity2.y = edges.y + 500;
    w.sword.is_placed = false;
    w.rabbit.is_placed = true;
    w.rabbit.x = w.entity1.x;
    w.rabbit.y = w.entity1.y;

    let ev = w.update(0);
    assert!(ev.pickup);
    assert!(!w.rabbit.is_placed);
    assert_eq!(w.entity1.speed, INIT_SPEED + SPEED_BOOST);
}

#[test]
fn scores_never_increase_across_frames() {
    let mut w = World::new(1000, 900, 42);
    let mut last1 = w.entity1.score;
    let mut last2 = w.entity2.score;
    for _ in 0..200 {
        if w.entity1.score < 1 || w.entity2.score < 1 {
            break;
        }
        w.update(16);
        assert!(w.entity1.score <= last1);
        assert!(w.entity2.score <= last2);
        last1 = w.entity1.score;
        last2 = w.entity2.score;
    }
}

#[test]
fn forced_killer_drains_the_opponent_to_zero() {
    let mut w = World::new(1000, 900, 3);
    w.sword.is_placed = false;

    let mut frames = 0u32;
    while w.entity2.score > 0 {
        assert!(frames < 10, "round must end within the starting score");
        // force the killer state and a full overlap every frame
        w.entity1.is_killer = true;
        w.entity1.x = w.entity2.x;
        w.entity1.y = w.entity2.y;
        let ev = w.update(0);
        assert!(ev.kill);
        assert!(!w.entity1.is_killer, "a kill consumes the flag");
        frames += 1;
    }

    assert_eq!(frames, 10);
    assert_eq!(w.entity2.score, 0);
    assert_eq!(w.entity1.score, INIT_SCORE);
}

#[test]
fn quiet_frame_changes_no_score_and_no_speed() {
    let mut w = World::new(1000, 900, 7);
    let edges = w.edges();
    w.entity1.x = edges.x;
    w.entity1.y = edges.y;
    w.entity2.x = edges.x + 500;
    w.entity2.y = edges.y + 500;
    w.sword.is_placed = false;
    w.rabbit.is_placed = false;
    w.entity1.direction_x = Direction::Pos;
    w.entity1.direction_y = Direction::Pos;
    w.entity2.direction_x = Direction::Neg;
    w.entity2.direction_y = Direction::Neg;

    let before_speed1 = w.entity1.speed;
    let ev = w.update(0);
    assert!(!ev.kill);
    assert!(!ev.pickup);
    assert_eq!(w.entity1.score, INIT_SCORE);
    assert_eq!(w.entity2.score, INIT_SCORE);
    assert_eq!(w.entity1.speed, before_speed1);
}
