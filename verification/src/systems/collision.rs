//! Collision: the run is lost the moment any hazard overlaps the player near
//! ground level.

use vstd::prelude::*;

use crate::ferris::Transform;
use crate::world::{all_within, entity_within, Entity, World, COORD_LIMIT};

verus! {

/// Width of a hazard's lethal span, in thousandths of a unit (8 units).
pub const HAZARD_SPAN: i64 = 8_000;

/// Width of the player's lethal span, in thousandths of a unit (10 units).
pub const PLAYER_SPAN: i64 = 10_000;

/// Height below which the player can be hit, in thousandths of a unit
/// (10 units).
pub const LETHAL_HEIGHT: i64 = 10_000;

/// Flips the scoreboard to losing on the first overlap of a hazard and the
/// player near ground level.  Runs unconditionally every tick.
pub struct CollisionSystem;

/// Whether this entity takes part in collisions as a hazard.
pub open spec fn is_hazard(e: Entity) -> bool {
    e.bad_touch is Some && e.transform is Some
}

/// Whether this entity takes part in collisions as the player.
pub open spec fn is_player(e: Entity) -> bool {
    e.rustacean is Some && e.transform is Some
}

/// The lethal-contact test: the half-open spans `[hazard.x, hazard.x + 8]`
/// and `[player.x, player.x + 10]` overlap, and the player is below height
/// 10 (all in whole units; the hazard's own height does not matter).
pub open spec fn lethal_contact(hazard: Transform, player: Transform) -> bool {
    &&& player.y < LETHAL_HEIGHT
    &&& hazard.x < player.x + PLAYER_SPAN
    &&& hazard.x + HAZARD_SPAN > player.x
}

/// Some hazard of the pool is in lethal contact with some player entity.
pub open spec fn collision_somewhere(s: Seq<Entity>) -> bool {
    exists|i: int, j: int|
        0 <= i < s.len() && 0 <= j < s.len() && is_hazard(s[i]) && is_player(s[j])
            && lethal_contact(s[i].transform->Some_0, s[j].transform->Some_0)
}

/// Some hazard among the first `k` entities is in lethal contact with some
/// player entity.
pub open spec fn collision_in_prefix(s: Seq<Entity>, k: int) -> bool {
    exists|i: int, j: int|
        0 <= i < k && i < s.len() && 0 <= j < s.len() && is_hazard(s[i]) && is_player(s[j])
            && lethal_contact(s[i].transform->Some_0, s[j].transform->Some_0)
}

/// The hazard at `i` is in lethal contact with some player among the first
/// `k` entities.
pub open spec fn collision_with_upto(s: Seq<Entity>, i: int, k: int) -> bool {
    exists|j: int|
        0 <= j < k && j < s.len() && is_player(s[j])
            && lethal_contact(s[i].transform->Some_0, s[j].transform->Some_0)
}

impl CollisionSystem {
    /// The entities are untouched, and the run keeps being won exactly when
    /// it was being won before and no hazard is in lethal contact with a
    /// player; once lost it can never flip back.
    pub fn run(&mut self, world: &mut World)
        requires
            all_within(old(world).entities@, COORD_LIMIT as int),
        ensures
            final(world).entities == old(world).entities,
            final(world).scoreboard.winning == (old(world).scoreboard.winning
                && !collision_somewhere(old(world).entities@)),
    {
        let ghost s = world.entities@;
        let n = world.entities.len();
        let mut i: usize = 0;
        while i < n
            invariant
                i <= n,
                n == s.len(),
                world.entities@ == s,
                world.entities == old(world).entities,
                all_within(s, COORD_LIMIT as int),
                world.scoreboard.winning == (old(world).scoreboard.winning
                    && !collision_in_prefix(s, i as int)),
            decreases n - i,
        {
            let hazardous = world.entities[i].bad_touch.is_some();
            let hx = match &world.entities[i].transform {
                Some(t) => t.x,
                None => 0,
            };
            if hazardous && world.entities[i].transform.is_some() {
                let mut j: usize = 0;
                while j < n
                    invariant
                        i < n,
                        j <= n,
                        n == s.len(),
                        world.entities@ == s,
                        world.entities == old(world).entities,
                        all_within(s, COORD_LIMIT as int),
                        is_hazard(s[i as int]),
                        hx == s[i as int].transform->Some_0.x,
                        world.scoreboard.winning == (old(world).scoreboard.winning
                            && !collision_in_prefix(s, i as int)
                            && !collision_with_upto(s, i as int, j as int)),
                    decreases n - j,
                {
                    assert(entity_within(s[i as int], COORD_LIMIT as int));
                    assert(entity_within(s[j as int], COORD_LIMIT as int));
                    let (px, py, is_pl) = match (&world.entities[j].rustacean, &world.entities[j].transform) {
                        (Some(_), Some(t)) => (t.x, t.y, true),
                        _ => (0, 0, false),
                    };
                    if is_pl && world.scoreboard.winning && py < LETHAL_HEIGHT
                        && hx < px + PLAYER_SPAN && hx + HAZARD_SPAN > px {
                        world.scoreboard.winning = false;
                    }
                    j = j + 1;
                }
                proof {
                    assert(collision_in_prefix(s, i as int + 1) == (collision_in_prefix(s, i as int)
                        || collision_with_upto(s, i as int, n as int)));
                }
            } else {
                proof {
                    assert(collision_in_prefix(s, i as int + 1) == collision_in_prefix(s, i as int));
                }
            }
            i = i + 1;
        }
        proof {
            assert(collision_in_prefix(s, n as int) == collision_somewhere(s));
        }
    }
}

} // verus!
