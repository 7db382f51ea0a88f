use ferris::ferris::Ferris;
use ferris::tick;
use ferris::world::World;
use ferris::ferris::{BadTouch, Mass, Parallax, OutOfScreenAction, Rustacean, Scoreboard, Transform};
use ferris::world::Entity;

fn bare() -> Entity {
    Entity {
        rustacean: None,
        bad_touch: None,
        score_text: None,
        transform: None,
        mass: None,
        parallax: None,
        ui_text: None,
    }
}

fn runner(x: i64, y: i64, velocity: i64) -> Entity {
    let mut e = bare();
    e.rustacean = Some(Rustacean);
    e.transform = Some(Transform { x, y });
    e.mass = Some(Mass { velocity });
    e
}

fn coral(x: i64) -> Entity {
    let mut e = bare();
    e.bad_touch = Some(BadTouch);
    e.transform = Some(Transform { x, y: 0 });
    e.parallax = Some(Parallax {
        on_out_of_screen: OutOfScreenAction::DELETE,
        factor: 80,
        width: 16_000,
    });
    e
}

#[test]
fn tick_runs_jump_then_gravity_then_parallax() {
    // Grounded player jumps; in the same tick gravity already pulls: the
    // velocity becomes 3 - 0.9 = 2.1 units and the player rises to 2.1.
    // The distant hazard scrolls 8 units left.
    let mut state = Ferris::new();
    state.coral_timer = Some(100_000);
    let mut w = World {
        entities: vec![runner(-84_000, 0, 0), coral(116_000)],
        scoreboard: Scoreboard { winning: true },
    };
    tick(&mut state, &mut w, 100, 2_345, true);
    assert!(w.scoreboard.winning);
    assert_eq!(w.entities.len(), 2);
    let p = &w.entities[0];
    assert_eq!(p.mass.as_ref().unwrap().velocity, 2_100);
    assert_eq!(p.transform.as_ref().unwrap().y, 2_100);
    let h = &w.entities[1];
    assert_eq!(h.transform.as_ref().unwrap().x, 108_000);
    assert_eq!(state.coral_timer, Some(99_900));
}

#[test]
fn tick_flips_and_then_freezes() {
    // A hazard scrolls onto the player: the tick flips the run to lost, and
    // the next tick moves nothing any more.
    let mut state = Ferris::new();
    state.coral_timer = Some(100_000);
    let mut w = World {
        entities: vec![runner(0, 0, 0), coral(10_000)],
        scoreboard: Scoreboard { winning: true },
    };
    tick(&mut state, &mut w, 100, 0, false);
    assert!(!w.scoreboard.winning);
    let hazard_x = w.entities[1].transform.as_ref().unwrap().x;
    assert_eq!(hazard_x, 2_000);
    // The spawner reads the flag after the collision ran: the countdown is
    // already frozen in the losing tick itself.
    assert_eq!(state.coral_timer, Some(100_000));

    tick(&mut state, &mut w, 100, 100, false);
    assert!(!w.scoreboard.winning);
    assert_eq!(w.entities[1].transform.as_ref().unwrap().x, hazard_x);
    assert_eq!(w.entities[0].mass.as_ref().unwrap().velocity, -900);
    assert_eq!(w.entities[0].transform.as_ref().unwrap().y, 0);
    assert_eq!(state.coral_timer, Some(100_000));
}

#[test]
fn tick_spawns_when_countdown_expires() {
    let mut state = Ferris::new();
    let mut w = World { entities: Vec::new(), scoreboard: Scoreboard { winning: true } };
    state.on_start(&mut w);
    tick(&mut state, &mut w, 1_600, 1_600, false);
    // The same long tick scrolls the eight leftmost ground tiles off screen.
    assert_eq!(w.entities.len(), 10);
    let c = w.entities.last().unwrap();
    assert!(c.bad_touch.is_some());
    assert_eq!(c.transform.as_ref().unwrap().x, 116_000);
    let next = state.coral_timer.unwrap();
    assert!((500..2_000).contains(&next));
}

#[test]
fn tick_updates_score_text() {
    let mut state = Ferris::new();
    let mut w = World { entities: Vec::new(), scoreboard: Scoreboard { winning: true } };
    state.on_start(&mut w);
    tick(&mut state, &mut w, 16, 2_345, false);
    let score = &w.entities[15];
    assert_eq!(score.ui_text.as_ref().unwrap().text, "Score: 00000023");
}

#[test]
fn tick_on_empty_world() {
    let mut state = Ferris::new();
    let mut w = World { entities: Vec::new(), scoreboard: Scoreboard { winning: true } };
    tick(&mut state, &mut w, 16, 0, true);
    assert!(w.scoreboard.winning);
    assert_eq!(w.entities.len(), 0);
}
