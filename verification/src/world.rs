//! The central entity store: a pool of entities, each a record of optional
//! components, plus the shared scoreboard.

use vstd::prelude::*;

use crate::ferris::{BadTouch, Mass, Parallax, Rustacean, ScoreText, Scoreboard, Transform, UiText};

verus! {

/// Largest tick length the systems accept, in milliseconds (one minute).
pub const MAX_DT: i64 = 60_000;

/// Largest scroll factor a parallax component may carry, in units per second.
pub const MAX_FACTOR: i64 = 1_000_000;

/// Outer bound on every coordinate, velocity and despawn width that the
/// systems work on, in thousandths of a unit.  One tick moves a value by at
/// most `MAX_DT * MAX_FACTOR`, so every intermediate sum stays far inside
/// `i64`.
pub const COORD_LIMIT: i64 = 1_000_000_000_000_000;

/// Bound under which a world must stay for a whole tick of all systems to be
/// in bounds; one tick keeps values well under `COORD_LIMIT`.
pub const SAFE_LIMIT: i64 = 1_000_000_000;

/// One entity of the pool: a plain record of optional components.  An absent
/// component means the entity is skipped by every system that needs it.
pub struct Entity {
    pub rustacean: Option<Rustacean>,
    pub bad_touch: Option<BadTouch>,
    pub score_text: Option<ScoreText>,
    pub transform: Option<Transform>,
    pub mass: Option<Mass>,
    pub parallax: Option<Parallax>,
    pub ui_text: Option<UiText>,
}

/// The entity store and the shared run state the systems read and write.
pub struct World {
    pub entities: Vec<Entity>,
    pub scoreboard: Scoreboard,
}

/// Every numeric component of the entity lies within `b`, and scroll data is
/// non-negative with the factor within `MAX_FACTOR`.
pub open spec fn entity_within(e: Entity, b: int) -> bool {
    &&& (e.transform matches Some(t) ==> -b <= t.x <= b && -b <= t.y <= b)
    &&& (e.mass matches Some(m) ==> -b <= m.velocity <= b)
    &&& (e.parallax matches Some(p) ==> 0 <= p.factor <= MAX_FACTOR && 0 <= p.width <= b)
}

/// Every entity of the sequence is within `b` (see [`entity_within`]).
pub open spec fn all_within(s: Seq<Entity>, b: int) -> bool {
    forall|i: int| 0 <= i < s.len() ==> entity_within(#[trigger] s[i], b)
}

/// A bound on entities is preserved when the bound is widened.
pub proof fn lemma_all_within_widen(s: Seq<Entity>, b1: int, b2: int)
    requires
        all_within(s, b1),
        b1 <= b2,
    ensures
        all_within(s, b2),
{
}

} // verus!
