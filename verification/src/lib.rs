//! Core simulation of a side-scrolling jump-and-dodge game.
//!
//! A single player entity falls under gravity and jumps on command while
//! hazard entities scroll in from the right edge of the screen; the run ends
//! when a hazard touches the player near ground level.  This crate holds the
//! per-tick simulation: the component data, the entity pool, the five update
//! systems, and the timer-driven hazard spawner.  All lengths and velocities
//! are in thousandths of a world unit and all times in milliseconds, so every
//! update is exact integer arithmetic.  Rendering, input bindings, windowing
//! and asset loading are left to the surrounding program.

use vstd::prelude::*;

use crate::ferris::{coral_entity, Ferris, MAX_CORAL_DELAY, MIN_CORAL_DELAY};
use crate::systems::collision::{collision_somewhere, CollisionSystem};
use crate::systems::gravity::{gravity_tr, GravitySystem, GRAVITY};
use crate::systems::jump::{jump_affects, jump_step, jump_tr, JumpSystem};
use crate::systems::parallax::{lemma_parallax_result_within, parallax_result, ParallaxSystem};
use crate::systems::score_check::{score_applied, ScoreCheckSystem};
use crate::world::{
    all_within, entity_within, lemma_all_within_widen, Entity, World, COORD_LIMIT, MAX_DT,
    MAX_FACTOR, SAFE_LIMIT,
};

pub mod ferris;
pub mod systems;
pub mod world;

verus! {

/// The entity pool after one tick's systems: the jump system always runs;
/// gravity and parallax only act while the run is being won.
pub open spec fn tick_entities(
    s: Seq<Entity>,
    dt: int,
    jump_pressed: bool,
    winning: bool,
) -> Seq<Entity> {
    let jumped = jump_tr(s, jump_pressed);
    if winning {
        parallax_result(gravity_tr(jumped, dt), dt)
    } else {
        jumped
    }
}

/// Whether the run is still being won after one tick: it was being won
/// before, and afterwards no hazard is in lethal contact with the player.
pub open spec fn tick_winning(s: Seq<Entity>, dt: int, jump_pressed: bool, winning: bool) -> bool {
    winning && !collision_somewhere(tick_entities(s, dt, jump_pressed, winning))
}

/// Whether a tick spawns a hazard: a countdown exists and has run out, and
/// the run is still being won once the systems have run.
pub open spec fn tick_spawns(
    s: Seq<Entity>,
    dt: int,
    jump_pressed: bool,
    winning: bool,
    coral_timer: Option<i64>,
) -> bool {
    &&& coral_timer matches Some(t) && t - dt <= 0
    &&& tick_winning(s, dt, jump_pressed, winning)
}

/// Law: losing is permanent.  A tick can keep or clear the run flag but
/// never raise it: once `winning` is `false` it stays `false` for every
/// later tick of the run.
pub proof fn lemma_losing_is_permanent(s: Seq<Entity>, dt: int, jump_pressed: bool, winning: bool)
    ensures
        !winning ==> !tick_winning(s, dt, jump_pressed, winning),
        tick_winning(s, dt, jump_pressed, winning) ==> winning,
{
}

/// Law: a lost run is frozen.  While `winning` is `false` no position
/// changes at all — gravity moves nothing and parallax neither moves nor
/// destroys anything — and every entity that is not a grounded player under
/// a pressed jump signal (the jump system alone keeps running) is kept
/// exactly as it was.
pub proof fn lemma_lost_run_is_frozen(s: Seq<Entity>, dt: int, jump_pressed: bool)
    ensures
        tick_entities(s, dt, jump_pressed, false).len() == s.len(),
        forall|i: int| 0 <= i < s.len() ==> (#[trigger] tick_entities(s, dt, jump_pressed, false)[i]).transform
            == s[i].transform,
        forall|i: int| 0 <= i < s.len() ==> (#[trigger] tick_entities(s, dt, jump_pressed, false)[i]).parallax
            == s[i].parallax,
        forall|i: int| 0 <= i < s.len()
            && !(jump_affects(s[i]) && jump_pressed && s[i].transform->Some_0.y == 0)
            ==> #[trigger] tick_entities(s, dt, jump_pressed, false)[i] == s[i],
        !jump_pressed ==> tick_entities(s, dt, jump_pressed, false) == s,
{
    assert(forall|i: int| 0 <= i < s.len() ==> #[trigger] tick_entities(s, dt, jump_pressed, false)[i]
        == jump_step(s[i], jump_pressed));
    if !jump_pressed {
        assert(tick_entities(s, dt, jump_pressed, false) =~= s);
    }
}

/// One full simulation tick, in the fixed order jump, gravity, parallax,
/// collision, score display, then the hazard spawner.  The world's entities
/// become [`tick_entities`] with the score text rewritten, the run flag
/// becomes [`tick_winning`], and the spawner appends one hazard exactly when
/// its countdown ran out on a still-winning run.
pub fn tick(state: &mut Ferris, world: &mut World, dt: i64, elapsed_ms: u64, jump_pressed: bool)
    requires
        0 <= dt <= MAX_DT,
        all_within(old(world).entities@, SAFE_LIMIT as int),
        old(state).coral_timer matches Some(t) ==> -COORD_LIMIT <= t <= COORD_LIMIT,
    ensures
        final(state).winning == old(state).winning,
        final(state).score == old(state).score,
        final(world).scoreboard.winning == tick_winning(
            old(world).entities@,
            dt as int,
            jump_pressed,
            old(world).scoreboard.winning,
        ),
        !old(world).scoreboard.winning ==> !final(world).scoreboard.winning,
        ({
            let base = tick_entities(
                old(world).entities@,
                dt as int,
                jump_pressed,
                old(world).scoreboard.winning,
            );
            let w2 = tick_winning(
                old(world).entities@,
                dt as int,
                jump_pressed,
                old(world).scoreboard.winning,
            );
            let spawned = tick_spawns(
                old(world).entities@,
                dt as int,
                jump_pressed,
                old(world).scoreboard.winning,
                old(state).coral_timer,
            );
            &&& final(world).entities@.len() == base.len() + if spawned {
                1int
            } else {
                0int
            }
            &&& forall|i: int| 0 <= i < base.len() ==> score_applied(
                base[i],
                #[trigger] final(world).entities@[i],
                w2,
                elapsed_ms as nat,
            )
            &&& spawned ==> final(world).entities@[base.len() as int] == coral_entity()
            &&& match old(state).coral_timer {
                None => final(state).coral_timer is None,
                Some(t) => {
                    if !w2 {
                        final(state).coral_timer == Some(t)
                    } else if t - dt > 0 {
                        final(state).coral_timer == Some((t - dt) as i64)
                    } else {
                        final(state).coral_timer matches Some(nt) && MIN_CORAL_DELAY <= nt
                            < MAX_CORAL_DELAY
                    }
                },
            }
        }),
{
    let ghost s0 = world.entities@;
    let ghost w0 = world.scoreboard.winning;
    let mut jump_system = JumpSystem;
    jump_system.run(world, jump_pressed);
    let ghost s1 = world.entities@;
    proof {
        assert(s1 =~= jump_tr(s0, jump_pressed));
        assert forall|i: int| 0 <= i < s1.len() implies entity_within(
            #[trigger] s1[i],
            SAFE_LIMIT as int,
        ) by {
            assert(entity_within(s0[i], SAFE_LIMIT as int));
        }
        lemma_all_within_widen(s1, SAFE_LIMIT as int, COORD_LIMIT as int);
    }
    let mut gravity_system = GravitySystem;
    gravity_system.run(world, dt);
    let ghost s2 = world.entities@;
    let ghost mid_bound = 2 * SAFE_LIMIT + GRAVITY * MAX_DT;
    proof {
        if w0 {
            assert(s2 =~= gravity_tr(s1, dt as int));
        } else {
            assert(s2 == s1);
        }
        assert forall|i: int| 0 <= i < s2.len() implies entity_within(
            #[trigger] s2[i],
            mid_bound,
        ) by {
            assert(entity_within(s1[i], SAFE_LIMIT as int));
        }
        lemma_all_within_widen(s2, mid_bound, COORD_LIMIT as int);
    }
    let mut parallax_system = ParallaxSystem;
    parallax_system.run(world, dt);
    let ghost s3 = world.entities@;
    proof {
        if w0 {
            lemma_parallax_result_within(s2, dt as int, mid_bound);
            lemma_all_within_widen(s3, mid_bound + MAX_DT * MAX_FACTOR, COORD_LIMIT as int);
        } else {
            lemma_all_within_widen(s3, mid_bound, COORD_LIMIT as int);
        }
        assert(s3 == tick_entities(s0, dt as int, jump_pressed, w0));
    }
    let mut collision_system = CollisionSystem;
    collision_system.run(world);
    proof {
        assert(world.scoreboard.winning == tick_winning(s0, dt as int, jump_pressed, w0));
    }
    let mut score_system = ScoreCheckSystem;
    score_system.run(world, elapsed_ms);
    state.update(world, dt);
}

} // verus!
