use ferris::ferris::{Ferris, OutOfScreenAction, Scoreboard};
use ferris::world::World;

fn empty_world(winning: bool) -> World {
    World { entities: Vec::new(), scoreboard: Scoreboard { winning } }
}

#[test]
fn new_run_state_is_idle() {
    let state = Ferris::new();
    assert!(state.coral_timer.is_none());
    assert!(!state.winning);
    assert_eq!(state.score, 0);
}

#[test]
fn on_start_seeds_countdown_and_scene() {
    let mut state = Ferris::new();
    let mut w = empty_world(false);
    state.on_start(&mut w);
    assert_eq!(state.coral_timer, Some(1_600));
    assert!(w.scoreboard.winning);
    assert_eq!(w.entities.len(), 17);

    // The player: near the left edge, on the ground, at rest.
    let p = &w.entities[0];
    assert!(p.rustacean.is_some());
    assert_eq!(p.transform.as_ref().unwrap().x, -84_000);
    assert_eq!(p.transform.as_ref().unwrap().y, 0);
    assert_eq!(p.mass.as_ref().unwrap().velocity, 0);

    // Fourteen ground tiles, half a tile below the ground line.
    for n in 1..15 {
        let g = &w.entities[n];
        assert!(g.bad_touch.is_none());
        let t = g.transform.as_ref().unwrap();
        assert_eq!(t.x, 16_000 * (n as i64) - 116_000);
        assert_eq!(t.y, -8_000);
        let p = g.parallax.as_ref().unwrap();
        assert_eq!(p.factor, 80);
        assert_eq!(p.width, 16_000);
        assert!(matches!(
            p.on_out_of_screen,
            OutOfScreenAction::REVIVE { vertical: false, horizontal: true }
        ));
    }

    // The score text and the lose banner.
    let score = &w.entities[15];
    assert!(score.score_text.is_some());
    assert_eq!(score.ui_text.as_ref().unwrap().text, "Score: 00000000");
    let lose = &w.entities[16];
    assert!(lose.score_text.is_none());
    assert_eq!(lose.ui_text.as_ref().unwrap().text, "You Lose!");
}

#[test]
fn update_counts_the_timer_down() {
    let mut state = Ferris::new();
    let mut w = empty_world(true);
    state.on_start(&mut w);
    let before = w.entities.len();
    state.update(&mut w, 100);
    assert_eq!(state.coral_timer, Some(1_500));
    assert_eq!(w.entities.len(), before);
}

#[test]
fn update_spawns_hazard_when_timer_runs_out() {
    let mut state = Ferris::new();
    let mut w = empty_world(false);
    state.on_start(&mut w);
    let before = w.entities.len();
    state.update(&mut w, 1_600);
    assert_eq!(w.entities.len(), before + 1);

    // The new hazard: right screen edge, on the ground, scrolling at 80,
    // despawn width 16, marked for deletion, lethal.
    let c = w.entities.last().unwrap();
    assert!(c.bad_touch.is_some());
    assert!(c.rustacean.is_none());
    assert!(c.mass.is_none());
    let t = c.transform.as_ref().unwrap();
    assert_eq!(t.x, 116_000);
    assert_eq!(t.y, 0);
    let p = c.parallax.as_ref().unwrap();
    assert_eq!(p.factor, 80);
    assert_eq!(p.width, 16_000);
    assert!(matches!(p.on_out_of_screen, OutOfScreenAction::DELETE));

    // The next delay is drawn from half a second up to two seconds.
    let next = state.coral_timer.unwrap();
    assert!((500..2_000).contains(&next));
}

#[test]
fn update_timer_frozen_once_lost() {
    let mut state = Ferris::new();
    let mut w = empty_world(true);
    state.on_start(&mut w);
    w.scoreboard.winning = false;
    let before = w.entities.len();
    state.update(&mut w, 5_000);
    assert_eq!(state.coral_timer, Some(1_600));
    assert_eq!(w.entities.len(), before);
}

#[test]
fn update_does_nothing_before_start() {
    let mut state = Ferris::new();
    let mut w = empty_world(true);
    state.update(&mut w, 5_000);
    assert!(state.coral_timer.is_none());
    assert_eq!(w.entities.len(), 0);
}

#[test]
fn spawn_delays_always_in_range() {
    // The reset delay is random; every draw must land in [0.5 s, 2 s).
    for _ in 0..50 {
        let mut state = Ferris::new();
        let mut w = empty_world(false);
        state.on_start(&mut w);
        state.update(&mut w, 1_600);
        let next = state.coral_timer.unwrap();
        assert!((500..2_000).contains(&next));
    }
}
