use ferris::ferris::{BadTouch, Mass, Parallax, OutOfScreenAction, Rustacean, Scoreboard, Transform};
use ferris::systems::{CollisionSystem, GravitySystem, JumpSystem, ParallaxSystem};
use ferris::world::{Entity, World};

fn entity() -> Entity {
    Entity {
        rustacean: None,
        bad_touch: None,
        score_text: None,
        transform: None,
        mass: None,
        parallax: None,
        ui_text: None,
    }
}

fn world(entities: Vec<Entity>, winning: bool) -> World {
    World { entities, scoreboard: Scoreboard { winning } }
}

fn player(x: i64, y: i64, velocity: i64) -> Entity {
    let mut e = entity();
    e.rustacean = Some(Rustacean);
    e.transform = Some(Transform { x, y });
    e.mass = Some(Mass { velocity });
    e
}

fn hazard(x: i64, y: i64) -> Entity {
    let mut e = entity();
    e.bad_touch = Some(BadTouch);
    e.transform = Some(Transform { x, y });
    e.parallax = Some(Parallax {
        on_out_of_screen: OutOfScreenAction::DELETE,
        factor: 80,
        width: 16_000,
    });
    e
}

#[test]
fn gravity_applies_velocity_and_moves() {
    // 10 units up, at rest; dt = 100 ms: velocity' = -9 * 0.1 = -0.9 units,
    // y' = 10 - 0.9 = 9.1 units.
    let mut w = world(vec![player(0, 10_000, 0)], true);
    let mut gravity = GravitySystem;
    gravity.run(&mut w, 100);
    let e = &w.entities[0];
    assert_eq!(e.mass.as_ref().unwrap().velocity, -900);
    assert_eq!(e.transform.as_ref().unwrap().y, 9_100);
    assert_eq!(e.transform.as_ref().unwrap().x, 0);
}

#[test]
fn gravity_clamps_at_ground_without_resetting_velocity() {
    // 0.1 units up: the fall would pass the ground, so y clamps to 0 while
    // the velocity keeps accumulating.
    let mut w = world(vec![player(0, 100, 0)], true);
    let mut gravity = GravitySystem;
    gravity.run(&mut w, 100);
    let e = &w.entities[0];
    assert_eq!(e.mass.as_ref().unwrap().velocity, -900);
    assert_eq!(e.transform.as_ref().unwrap().y, 0);
    gravity.run(&mut w, 100);
    let e = &w.entities[0];
    assert_eq!(e.mass.as_ref().unwrap().velocity, -1_800);
    assert_eq!(e.transform.as_ref().unwrap().y, 0);
}

#[test]
fn gravity_skips_entities_without_mass() {
    let mut w = world(vec![hazard(50_000, 2_000)], true);
    let mut gravity = GravitySystem;
    gravity.run(&mut w, 100);
    let e = &w.entities[0];
    assert_eq!(e.transform.as_ref().unwrap().y, 2_000);
    assert_eq!(e.transform.as_ref().unwrap().x, 50_000);
}

#[test]
fn gravity_frozen_once_lost() {
    let mut w = world(vec![player(0, 10_000, -500)], false);
    let mut gravity = GravitySystem;
    gravity.run(&mut w, 100);
    let e = &w.entities[0];
    assert_eq!(e.mass.as_ref().unwrap().velocity, -500);
    assert_eq!(e.transform.as_ref().unwrap().y, 10_000);
}

#[test]
fn jump_impulse_on_grounded_player() {
    let mut w = world(vec![player(0, 0, -1_200)], true);
    let mut jump = JumpSystem;
    jump.run(&mut w, true);
    assert_eq!(w.entities[0].mass.as_ref().unwrap().velocity, 3_000);
}

#[test]
fn jump_ignored_off_ground() {
    let mut w = world(vec![player(0, 5_000, -1_200)], true);
    let mut jump = JumpSystem;
    jump.run(&mut w, true);
    assert_eq!(w.entities[0].mass.as_ref().unwrap().velocity, -1_200);
}

#[test]
fn jump_ignored_without_signal() {
    let mut w = world(vec![player(0, 0, -1_200)], true);
    let mut jump = JumpSystem;
    jump.run(&mut w, false);
    assert_eq!(w.entities[0].mass.as_ref().unwrap().velocity, -1_200);
}

#[test]
fn parallax_scrolls_left() {
    // factor 80 units/s over 99 ms moves x by 7.92 units.
    let mut w = world(vec![hazard(-100_000, 0)], true);
    let mut parallax = ParallaxSystem;
    parallax.run(&mut w, 99);
    assert_eq!(w.entities.len(), 1);
    assert_eq!(w.entities[0].transform.as_ref().unwrap().x, -107_920);
}

#[test]
fn parallax_despawns_exactly_at_line() {
    // Screen 200 wide, despawn width 16: the line is x = -108 units.  One
    // more millisecond of scrolling crosses it exactly.
    let mut w = world(vec![hazard(-100_000, 0)], true);
    let mut parallax = ParallaxSystem;
    parallax.run(&mut w, 100);
    assert_eq!(w.entities.len(), 0);
}

#[test]
fn parallax_keeps_unaffected_entities() {
    let mut w = world(vec![player(-84_000, 0, 0), hazard(116_000, 0)], true);
    let mut parallax = ParallaxSystem;
    parallax.run(&mut w, 1_000);
    assert_eq!(w.entities.len(), 2);
    assert_eq!(w.entities[0].transform.as_ref().unwrap().x, -84_000);
    assert_eq!(w.entities[1].transform.as_ref().unwrap().x, 36_000);
}

#[test]
fn parallax_frozen_once_lost() {
    let mut w = world(vec![hazard(-107_999, 0)], false);
    let mut parallax = ParallaxSystem;
    parallax.run(&mut w, 10_000);
    assert_eq!(w.entities.len(), 1);
    assert_eq!(w.entities[0].transform.as_ref().unwrap().x, -107_999);
}

#[test]
fn collision_flips_scoreboard() {
    // Hazard at x = 5 (span 8), player at x = 10 (span 10), player at
    // y = 5 < 10: 5 < 20 and 13 > 10, so the run is lost.
    let mut w = world(vec![hazard(5_000, 0), player(10_000, 5_000, 0)], true);
    let mut collision = CollisionSystem;
    collision.run(&mut w);
    assert!(!w.scoreboard.winning);
}

#[test]
fn collision_ignores_high_player() {
    // Same geometry, player at y = 15 >= 10: no flip.
    let mut w = world(vec![hazard(5_000, 0), player(10_000, 15_000, 0)], true);
    let mut collision = CollisionSystem;
    collision.run(&mut w);
    assert!(w.scoreboard.winning);
}

#[test]
fn collision_ignores_disjoint_spans() {
    // Hazard entirely left of the player: 5 + 8 = 13 <= 20.
    let mut w = world(vec![hazard(5_000, 0), player(20_000, 0, 0)], true);
    let mut collision = CollisionSystem;
    collision.run(&mut w);
    assert!(w.scoreboard.winning);
}

#[test]
fn collision_never_revives_a_lost_run() {
    let mut w = world(vec![hazard(200_000, 0), player(0, 0, 0)], false);
    let mut collision = CollisionSystem;
    collision.run(&mut w);
    assert!(!w.scoreboard.winning);
}
