//! Component records, the shared scoreboard, and the per-run state object.
//!
//! Lengths are in thousandths of a world unit (the screen is 200 units wide,
//! so `SCREEN_WIDTH` is `200_000`), velocities in thousandths of a unit per
//! tick-step, and times in milliseconds.

use vstd::prelude::*;
use vstd::string::StringExecFns;
use rand::Rng;

use crate::systems::score_check::{format_score, score_line};
use crate::world::{Entity, World, COORD_LIMIT, MAX_DT};

verus! {

/// Screen height in thousandths of a unit (100 units).
pub const SCREEN_HEIGHT: i64 = 100_000;

/// Screen width in thousandths of a unit (200 units).
pub const SCREEN_WIDTH: i64 = 200_000;

/// Side of one sprite-sized object in thousandths of a unit (16 units).
pub const OBJECT_SIZE: i64 = 16_000;

/// Marks the single controllable player entity.
pub struct Rustacean;

/// Marks an entity as a collision hazard.
pub struct BadTouch;

/// Marks the UI text entity that shows the score.
pub struct ScoreText;

/// The shared run state: `winning` gates physics, scrolling and spawning,
/// and flips to `false` on the first hazard contact.
pub struct Scoreboard {
    pub winning: bool,
}

impl Default for Scoreboard {
    fn default() -> (r: Scoreboard)
        ensures
            !r.winning,
    {
        Scoreboard { winning: false }
    }
}

/// Per-entity 2D position, in thousandths of a unit.
pub struct Transform {
    pub x: i64,
    pub y: i64,
}

/// Per-entity vertical velocity, in thousandths of a unit per tick-step.
pub struct Mass {
    pub velocity: i64,
}

impl Default for Mass {
    fn default() -> (r: Mass)
        ensures
            r.velocity == 0,
    {
        Mass { velocity: 0 }
    }
}

/// What happens to a scrolling entity once it leaves the screen on the left.
#[allow(non_camel_case_types)]
pub enum OutOfScreenAction {
    REVIVE { vertical: bool, horizontal: bool },
    DELETE,
}

/// Horizontal scrolling data: a scroll speed in whole units per second, a
/// despawn width in thousandths of a unit, and an out-of-bounds policy.
pub struct Parallax {
    pub on_out_of_screen: OutOfScreenAction,
    pub factor: i64,
    pub width: i64,
}

/// A UI text component; the simulation only ever rewrites its characters.
pub struct UiText {
    pub text: String,
}

/// The countdown the hazard spawner starts from at the beginning of a run,
/// in milliseconds (1.6 seconds).
pub const FIRST_CORAL_DELAY: i64 = 1_600;

/// Smallest delay the spawner may draw between two hazards, in milliseconds.
pub const MIN_CORAL_DELAY: i64 = 500;

/// The delay the spawner draws is strictly below this, in milliseconds.
pub const MAX_CORAL_DELAY: i64 = 2_000;

/// The hazard entity the spawner creates: at the right screen edge on the
/// ground, scrolling left at 80 units per second, despawning 16 units past
/// the left edge, and lethal to the touch.
pub open spec fn coral_entity() -> Entity {
    Entity {
        rustacean: None,
        bad_touch: Some(BadTouch),
        score_text: None,
        transform: Some(Transform { x: (SCREEN_WIDTH / 2 + OBJECT_SIZE) as i64, y: 0 }),
        mass: None,
        parallax: Some(
            Parallax { on_out_of_screen: OutOfScreenAction::DELETE, factor: 80, width: OBJECT_SIZE },
        ),
        ui_text: None,
    }
}

/// The player entity at the start of a run: near the left edge, on the
/// ground, at rest.
pub open spec fn player_entity() -> Entity {
    Entity {
        rustacean: Some(Rustacean),
        bad_touch: None,
        score_text: None,
        transform: Some(Transform { x: (OBJECT_SIZE - SCREEN_WIDTH / 2) as i64, y: 0 }),
        mass: Some(Mass { velocity: 0 }),
        parallax: None,
        ui_text: None,
    }
}

/// The `n`-th ground tile (`n` from 1 to 14): half a tile below the ground
/// line, scrolling like the hazards but marked to be revived, not deleted.
pub open spec fn ground_entity(n: int) -> Entity {
    Entity {
        rustacean: None,
        bad_touch: None,
        score_text: None,
        transform: Some(
            Transform { x: (OBJECT_SIZE * n - 100_000 - OBJECT_SIZE) as i64, y: (-(OBJECT_SIZE / 2)) as i64 },
        ),
        mass: None,
        parallax: Some(
            Parallax {
                on_out_of_screen: OutOfScreenAction::REVIVE { vertical: false, horizontal: true },
                factor: 80,
                width: OBJECT_SIZE,
            },
        ),
        ui_text: None,
    }
}

/// Creates one hazard at the right screen edge (see [`coral_entity`]).
pub fn initialise_coral(world: &mut World)
    ensures
        final(world).entities@ == old(world).entities@.push(coral_entity()),
        final(world).scoreboard == old(world).scoreboard,
{
    world.entities.push(Entity {
        rustacean: None,
        bad_touch: Some(BadTouch),
        score_text: None,
        transform: Some(Transform { x: SCREEN_WIDTH / 2 + OBJECT_SIZE, y: 0 }),
        mass: None,
        parallax: Some(
            Parallax { on_out_of_screen: OutOfScreenAction::DELETE, factor: 80, width: OBJECT_SIZE },
        ),
        ui_text: None,
    });
}

/// Creates the player entity (see [`player_entity`]).
pub fn initialise_rustacean(world: &mut World)
    ensures
        final(world).entities@ == old(world).entities@.push(player_entity()),
        final(world).scoreboard == old(world).scoreboard,
{
    world.entities.push(Entity {
        rustacean: Some(Rustacean),
        bad_touch: None,
        score_text: None,
        transform: Some(Transform { x: OBJECT_SIZE - SCREEN_WIDTH / 2, y: 0 }),
        mass: Some(Mass { velocity: 0 }),
        parallax: None,
        ui_text: None,
    });
}

/// Creates the fourteen ground tiles (see [`ground_entity`]).
pub fn initialise_ground(world: &mut World)
    ensures
        final(world).entities@ == old(world).entities@
            + Seq::new(14, |k: int| ground_entity(k + 1)),
        final(world).scoreboard == old(world).scoreboard,
{
    let mut n: i64 = 1;
    while n < 15
        invariant
            1 <= n <= 15,
            world.entities@ == old(world).entities@
                + Seq::new((n - 1) as nat, |k: int| ground_entity(k + 1)),
            world.scoreboard == old(world).scoreboard,
        decreases 15 - n,
    {
        world.entities.push(Entity {
            rustacean: None,
            bad_touch: None,
            score_text: None,
            transform: Some(
                Transform { x: OBJECT_SIZE * n - 100_000 - OBJECT_SIZE, y: -(OBJECT_SIZE / 2) },
            ),
            mass: None,
            parallax: Some(
                Parallax {
                    on_out_of_screen: OutOfScreenAction::REVIVE { vertical: false, horizontal: true },
                    factor: 80,
                    width: OBJECT_SIZE,
                },
            ),
            ui_text: None,
        });
        n = n + 1;
        proof {
            assert(Seq::new((n - 1) as nat, |k: int| ground_entity(k + 1))
                =~= Seq::new((n - 2) as nat, |k: int| ground_entity(k + 1)).push(
                ground_entity(n - 1)));
            assert(world.entities@ =~= old(world).entities@
                + Seq::new((n - 1) as nat, |k: int| ground_entity(k + 1)));
        }
    }
}

/// Creates the score text entity, showing the zero score.
pub fn initialise_scoreboard(world: &mut World)
    ensures
        final(world).entities@.len() == old(world).entities@.len() + 1,
        final(world).entities@.drop_last() == old(world).entities@,
        ({
            let e = final(world).entities@.last();
            &&& e.score_text is Some
            &&& e.ui_text is Some
            &&& e.ui_text->Some_0.text@ == score_line(0)
            &&& e.rustacean is None
            &&& e.bad_touch is None
            &&& e.transform is None
            &&& e.mass is None
            &&& e.parallax is None
        }),
        final(world).scoreboard == old(world).scoreboard,
{
    let text = format_score(0);
    world.entities.push(Entity {
        rustacean: None,
        bad_touch: None,
        score_text: Some(ScoreText),
        transform: None,
        mass: None,
        parallax: None,
        ui_text: Some(UiText { text }),
    });
    proof {
        assert(world.entities@.drop_last() =~= old(world).entities@);
    }
}

/// Creates the lose banner entity; the renderer pulses it once the run is
/// lost.
pub fn initialise_you_lose(world: &mut World)
    ensures
        final(world).entities@.len() == old(world).entities@.len() + 1,
        final(world).entities@.drop_last() == old(world).entities@,
        ({
            let e = final(world).entities@.last();
            &&& e.ui_text is Some
            &&& e.ui_text->Some_0.text@ == seq!['Y', 'o', 'u', ' ', 'L', 'o', 's', 'e', '!']
            &&& e.rustacean is None
            &&& e.bad_touch is None
            &&& e.score_text is None
            &&& e.transform is None
            &&& e.mass is None
            &&& e.parallax is None
        }),
        final(world).scoreboard == old(world).scoreboard,
{
    let text = String::from_str("You Lose!");
    proof {
        reveal_strlit("You Lose!");
        assert("You Lose!"@ =~= seq!['Y', 'o', 'u', ' ', 'L', 'o', 's', 'e', '!']);
    }
    world.entities.push(Entity {
        rustacean: None,
        bad_touch: None,
        score_text: None,
        transform: None,
        mass: None,
        parallax: None,
        ui_text: Some(UiText { text }),
    });
    proof {
        assert(world.entities@.drop_last() =~= old(world).entities@);
    }
}

/// Relies on rand's `Rng::gen_range` on the thread-local generator: it
/// returns a uniformly drawn value inside the given non-empty half-open
/// range.
#[verifier::external_body]
fn draw_coral_delay() -> (r: i64)
    ensures
        MIN_CORAL_DELAY <= r < MAX_CORAL_DELAY,
{
    rand::thread_rng().gen_range(MIN_CORAL_DELAY..MAX_CORAL_DELAY)
}

/// The per-run state: the spawner's countdown, in milliseconds, plus the run
/// flag and score the driving program captures at setup time.
pub struct Ferris {
    pub coral_timer: Option<i64>,
    pub winning: bool,
    pub score: i64,
}

impl Ferris {
    /// A fresh run state: no countdown yet, not winning, zero score.
    pub fn new() -> (f: Ferris)
        ensures
            f.coral_timer is None,
            !f.winning,
            f.score == 0,
    {
        Ferris { coral_timer: None, winning: false, score: 0 }
    }

    /// Starts a run: the scoreboard begins winning, the spawner's countdown
    /// is seeded, and the scene is populated — the player, fourteen ground
    /// tiles, the score text and the lose banner, in that order.
    pub fn on_start(&mut self, world: &mut World)
        ensures
            final(self).coral_timer == Some(FIRST_CORAL_DELAY),
            final(self).winning == old(self).winning,
            final(self).score == old(self).score,
            final(world).scoreboard.winning,
            final(world).entities@.len() == old(world).entities@.len() + 17,
            final(world).entities@.subrange(0, old(world).entities@.len() as int)
                == old(world).entities@,
            final(world).entities@[old(world).entities@.len() as int] == player_entity(),
            forall|k: int|
                old(world).entities@.len() + 1 <= k < old(world).entities@.len() + 15
                    ==> #[trigger] final(world).entities@[k] == ground_entity(
                    k - old(world).entities@.len()),
            ({
                let e = final(world).entities@[old(world).entities@.len() as int + 15];
                &&& e.score_text is Some
                &&& e.ui_text is Some
                &&& e.ui_text->Some_0.text@ == score_line(0)
            }),
            ({
                let e = final(world).entities@[old(world).entities@.len() as int + 16];
                &&& e.score_text is None
                &&& e.ui_text is Some
                &&& e.ui_text->Some_0.text@ == seq!['Y', 'o', 'u', ' ', 'L', 'o', 's', 'e', '!']
            }),
    {
        world.scoreboard.winning = true;
        self.coral_timer = Some(FIRST_CORAL_DELAY);
        initialise_rustacean(world);
        let ghost s1 = world.entities@;
        initialise_ground(world);
        let ghost s2 = world.entities@;
        initialise_scoreboard(world);
        let ghost s3 = world.entities@;
        initialise_you_lose(world);
        proof {
            let s0 = old(world).entities@;
            let s4 = world.entities@;
            assert(s3 == s4.drop_last() && s2 == s3.drop_last());
            assert(forall|k: int| 0 <= k < s3.len() ==> #[trigger] s4[k] == s3[k]);
            assert(forall|k: int| 0 <= k < s2.len() ==> #[trigger] s3[k] == s2[k]);
            assert(forall|k: int| 0 <= k < s2.len() ==> #[trigger] s4[k] == s2[k]);
            assert(s4.subrange(0, s0.len() as int) =~= s0);
            assert(s4[s0.len() as int] == player_entity());
            assert forall|k: int|
                s0.len() + 1 <= k < s0.len() + 15 implies #[trigger] s4[k] == ground_entity(
                k - s0.len()) by {
                assert(s4[k] == s2[k]);
                assert(s2[k] == Seq::new(14, |j: int| ground_entity(j + 1))[k - s1.len() as int]);
            }
        }
    }

    /// The hazard spawner, run once per tick after the systems.  While the
    /// run is being won, the countdown drops by `dt`; when it runs out, one
    /// hazard is created at the right screen edge and the countdown is reset
    /// to a random delay of half a second up to two seconds.  While the run
    /// is lost the countdown is frozen, and before [`Ferris::on_start`] there
    /// is no countdown and nothing happens.
    pub fn update(&mut self, world: &mut World, dt: i64)
        requires
            0 <= dt <= MAX_DT,
            old(self).coral_timer matches Some(t) ==> -COORD_LIMIT <= t <= COORD_LIMIT,
        ensures
            final(world).scoreboard == old(world).scoreboard,
            final(self).winning == old(self).winning,
            final(self).score == old(self).score,
            match old(self).coral_timer {
                None => {
                    &&& final(self).coral_timer is None
                    &&& final(world).entities@ == old(world).entities@
                },
                Some(t) => {
                    if !old(world).scoreboard.winning {
                        &&& final(self).coral_timer == Some(t)
                        &&& final(world).entities@ == old(world).entities@
                    } else if t - dt > 0 {
                        &&& final(self).coral_timer == Some((t - dt) as i64)
                        &&& final(world).entities@ == old(world).entities@
                    } else {
                        &&& final(world).entities@ == old(world).entities@.push(coral_entity())
                        &&& final(self).coral_timer matches Some(nt)
                            && MIN_CORAL_DELAY <= nt < MAX_CORAL_DELAY
                    }
                },
            },
    {
        match self.coral_timer {
            Some(t) => {
                if world.scoreboard.winning {
                    let timer = t - dt;
                    if timer <= 0 {
                        initialise_coral(world);
                        self.coral_timer = Some(draw_coral_delay());
                    } else {
                        self.coral_timer = Some(timer);
                    }
                }
            }
            None => {},
        }
    }
}

} // verus!
