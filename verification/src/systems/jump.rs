//! Jump: a pressed jump signal gives the grounded player its upward impulse.

use vstd::prelude::*;

use crate::ferris::Mass;
use crate::world::{Entity, World};

verus! {

/// Upward velocity the player gets on a jump, in thousandths of a unit.
pub const JUMP_VELOCITY: i64 = 3_000;

/// Sets the player's velocity to the jump impulse when the jump signal is
/// pressed and the player stands exactly on the ground.  Runs every tick,
/// whether or not the run is still being won.
pub struct JumpSystem;

/// Whether the jump system updates this entity: it must be the player and
/// have both a position and a mass.
pub open spec fn jump_affects(e: Entity) -> bool {
    e.rustacean is Some && e.transform is Some && e.mass is Some
}

/// One jump step: the velocity becomes the impulse exactly when the entity is
/// a grounded player and the signal is pressed; otherwise nothing changes.
pub open spec fn jump_step(e: Entity, jump_pressed: bool) -> Entity {
    if jump_affects(e) && jump_pressed && e.transform->Some_0.y == 0 {
        Entity { mass: Some(Mass { velocity: JUMP_VELOCITY }), ..e }
    } else {
        e
    }
}

/// The entity pool after one jump tick: every entity takes its jump step.
pub open spec fn jump_tr(s: Seq<Entity>, jump_pressed: bool) -> Seq<Entity> {
    s.map_values(|e: Entity| jump_step(e, jump_pressed))
}

/// Law: the jump impulse.  A grounded player under a pressed signal gets
/// exactly the impulse velocity; a player off the ground, or an unpressed
/// signal, changes nothing at all.
pub proof fn lemma_jump_impulse(e: Entity, jump_pressed: bool)
    ensures
        jump_affects(e) && jump_pressed && e.transform->Some_0.y == 0 ==> jump_step(
            e,
            jump_pressed,
        ).mass == Some(Mass { velocity: JUMP_VELOCITY }),
        (e.transform matches Some(t) && t.y != 0) ==> jump_step(e, jump_pressed) == e,
        !jump_pressed ==> jump_step(e, jump_pressed) == e,
        jump_step(e, jump_pressed).transform == e.transform,
        jump_step(e, jump_pressed).parallax == e.parallax,
{
}

impl JumpSystem {
    /// Every entity takes one jump step (a no-op for all but a grounded
    /// player under a pressed signal); the scoreboard is untouched.
    pub fn run(&mut self, world: &mut World, jump_pressed: bool)
        ensures
            final(world).scoreboard == old(world).scoreboard,
            final(world).entities@.len() == old(world).entities@.len(),
            forall|i: int| 0 <= i < old(world).entities@.len() ==>
                final(world).entities@[i] == jump_step(old(world).entities@[i], jump_pressed),
    {
        let n = world.entities.len();
        let mut i: usize = 0;
        while i < n
            invariant
                i <= n,
                n == world.entities@.len(),
                world.entities@.len() == old(world).entities@.len(),
                world.scoreboard == old(world).scoreboard,
                forall|j: int| 0 <= j < i ==> world.entities@[j]
                    == jump_step(old(world).entities@[j], jump_pressed),
                forall|j: int| i <= j < n ==> world.entities@[j] == old(world).entities@[j],
            decreases n - i,
        {
            let grounded = match &world.entities[i].transform {
                Some(t) => t.y == 0,
                None => false,
            };
            let is_player = world.entities[i].rustacean.is_some();
            if is_player && grounded && jump_pressed {
                let e = &mut world.entities[i];
                match &mut e.mass {
                    Some(m) => {
                        m.velocity = JUMP_VELOCITY;
                    }
                    None => {}
                }
            }
            i = i + 1;
        }
    }
}

} // verus!
