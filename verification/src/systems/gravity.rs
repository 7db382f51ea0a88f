//! Gravity: every entity with a position and a mass gains downward velocity
//! and moves by it, clamped at the ground.  Frozen once the run is lost.

use vstd::prelude::*;

use crate::ferris::{Mass, Transform};
use crate::world::{all_within, entity_within, Entity, World, COORD_LIMIT, MAX_DT};

verus! {

/// Downward acceleration, in whole units per second of gained fall speed.
pub const GRAVITY: i64 = 9;

/// Applies gravity each tick to every entity that has both a position and a
/// mass, while the run is still being won.
pub struct GravitySystem;

/// Whether the gravity system updates this entity: it needs both a position
/// and a mass.
pub open spec fn gravity_affects(e: Entity) -> bool {
    e.transform is Some && e.mass is Some
}

/// One gravity step on an affected entity: the velocity drops by
/// `GRAVITY * dt` (exact, since positions are thousandths of a unit and `dt`
/// is in milliseconds), and the new velocity is added to the height, clamped
/// at the ground.  The velocity itself is not reset at the ground.
pub open spec fn gravity_step(e: Entity, dt: int) -> Entity
    recommends
        gravity_affects(e),
{
    let v = e.mass->Some_0.velocity - GRAVITY * dt;
    let lifted = e.transform->Some_0.y + v;
    let y = if lifted > 0 { lifted } else { 0 };
    Entity {
        transform: Some(Transform { x: e.transform->Some_0.x, y: y as i64 }),
        mass: Some(Mass { velocity: v as i64 }),
        ..e
    }
}

/// The entity pool after one gravity tick while winning: every affected
/// entity takes its gravity step.
pub open spec fn gravity_tr(s: Seq<Entity>, dt: int) -> Seq<Entity> {
    s.map_values(|e: Entity| if gravity_affects(e) { gravity_step(e, dt) } else { e })
}

/// Law: while the run is being won, every entity with a position and a mass
/// has, after one tick, exactly the velocity `velocity - GRAVITY * dt` and
/// exactly the height `max(0, y + velocity')`; its horizontal position and
/// everything else about it is kept.
pub proof fn lemma_gravity_law(s: Seq<Entity>, dt: int, i: int)
    requires
        0 <= dt <= MAX_DT,
        all_within(s, COORD_LIMIT as int),
        0 <= i < s.len(),
        gravity_affects(s[i]),
    ensures
        ({
            let v = s[i].mass->Some_0.velocity - GRAVITY * dt;
            let lifted = s[i].transform->Some_0.y + v;
            let e = gravity_tr(s, dt)[i];
            &&& e.mass->Some_0.velocity == v
            &&& e.transform->Some_0.y == if lifted > 0 { lifted } else { 0 }
            &&& e.transform->Some_0.x == s[i].transform->Some_0.x
            &&& e.rustacean == s[i].rustacean
            &&& e.bad_touch == s[i].bad_touch
            &&& e.score_text == s[i].score_text
            &&& e.parallax == s[i].parallax
            &&& e.ui_text == s[i].ui_text
        }),
{
    assert(entity_within(s[i], COORD_LIMIT as int));
}

impl GravitySystem {
    /// While `winning` is `true`, every entity with a position and a mass
    /// takes one exact gravity step; all other entities, the scoreboard, and
    /// (once the run is lost) the whole world are left untouched.
    pub fn run(&mut self, world: &mut World, dt: i64)
        requires
            0 <= dt <= MAX_DT,
            all_within(old(world).entities@, COORD_LIMIT as int),
        ensures
            final(world).scoreboard == old(world).scoreboard,
            final(world).entities@.len() == old(world).entities@.len(),
            old(world).scoreboard.winning ==> forall|i: int|
                0 <= i < old(world).entities@.len() ==> final(world).entities@[i] == (
                if gravity_affects(old(world).entities@[i]) {
                    gravity_step(old(world).entities@[i], dt as int)
                } else {
                    old(world).entities@[i]
                }),
            !old(world).scoreboard.winning ==> *final(world) == *old(world),
    {
        if !world.scoreboard.winning {
            return;
        }
        let n = world.entities.len();
        let mut i: usize = 0;
        while i < n
            invariant
                i <= n,
                n == world.entities@.len(),
                world.entities@.len() == old(world).entities@.len(),
                world.scoreboard == old(world).scoreboard,
                0 <= dt <= MAX_DT,
                all_within(old(world).entities@, COORD_LIMIT as int),
                forall|j: int| 0 <= j < i ==> world.entities@[j] == (
                    if gravity_affects(old(world).entities@[j]) {
                        gravity_step(old(world).entities@[j], dt as int)
                    } else {
                        old(world).entities@[j]
                    }),
                forall|j: int| i <= j < n ==> world.entities@[j] == old(world).entities@[j],
            decreases n - i,
        {
            assert(entity_within(old(world).entities@[i as int], COORD_LIMIT as int));
            let e = &mut world.entities[i];
            match (&mut e.transform, &mut e.mass) {
                (Some(t), Some(m)) => {
                    m.velocity = m.velocity - GRAVITY * dt;
                    let lifted = t.y + m.velocity;
                    t.y = if lifted > 0 { lifted } else { 0 };
                }
                _ => {}
            }
            i = i + 1;
        }
    }
}

} // verus!
