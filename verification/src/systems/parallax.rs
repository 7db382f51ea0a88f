//! Parallax: scrolling entities move left each tick and are destroyed once
//! they are fully past the left screen edge.  Frozen once the run is lost.

use vstd::prelude::*;

use crate::ferris::{Transform, SCREEN_WIDTH};
use crate::world::{all_within, entity_within, Entity, World, COORD_LIMIT, MAX_DT, MAX_FACTOR};

verus! {

/// Whether the parallax system moves this entity: it needs a position and
/// scroll data.
pub open spec fn parallax_affects(e: Entity) -> bool {
    e.transform is Some && e.parallax is Some
}

/// One scroll step on an affected entity: `x` drops by `dt * factor` (exact,
/// since `x` is in thousandths of a unit, `dt` in milliseconds and the factor
/// in units per second).
pub open spec fn parallax_step(e: Entity, dt: int) -> Entity
    recommends
        parallax_affects(e),
{
    let t = e.transform->Some_0;
    let p = e.parallax->Some_0;
    Entity { transform: Some(Transform { x: (t.x - dt * p.factor) as i64, y: t.y }), ..e }
}

/// Whether a scrolled entity is still on screen: its `x` must stay strictly
/// above `-(SCREEN_WIDTH + width) / 2` (stated doubled, to stay in integers).
pub open spec fn parallax_keeps(e: Entity) -> bool
    recommends
        parallax_affects(e),
{
    2 * e.transform->Some_0.x > -(SCREEN_WIDTH + e.parallax->Some_0.width)
}

/// The entity pool after one parallax tick: every affected entity is moved by
/// its scroll step and kept exactly when it is still on screen; every other
/// entity is kept unchanged, and order is preserved.
pub open spec fn parallax_result(s: Seq<Entity>, dt: int) -> Seq<Entity>
    decreases s.len(),
{
    if s.len() == 0 {
        Seq::empty()
    } else {
        let rest = parallax_result(s.drop_last(), dt);
        let e = s.last();
        if parallax_affects(e) {
            let stepped = parallax_step(e, dt);
            if parallax_keeps(stepped) {
                rest.push(stepped)
            } else {
                rest
            }
        } else {
            rest.push(e)
        }
    }
}

/// A bound on a pool is kept, widened by one tick's largest move, by a
/// parallax tick.
pub proof fn lemma_parallax_result_within(s: Seq<Entity>, dt: int, b: int)
    requires
        0 <= dt <= MAX_DT,
        0 <= b,
        all_within(s, b),
    ensures
        all_within(parallax_result(s, dt), b + MAX_DT * MAX_FACTOR),
        parallax_result(s, dt).len() <= s.len(),
    decreases s.len(),
{
    if s.len() > 0 {
        assert(all_within(s.drop_last(), b)) by {
            assert(forall|i: int| 0 <= i < s.len() - 1 ==> s.drop_last()[i] == #[trigger] s[i]);
            assert(forall|i: int| 0 <= i < s.len() - 1 ==> entity_within(
                #[trigger] s.drop_last()[i],
                b,
            ));
        }
        lemma_parallax_result_within(s.drop_last(), dt, b);
        let e = s.last();
        assert(entity_within(e, b));
        if parallax_affects(e) {
            let p = e.parallax->Some_0;
            assert(0 <= dt * p.factor <= MAX_DT * MAX_FACTOR) by (nonlinear_arith)
                requires
                    0 <= dt <= MAX_DT,
                    0 <= p.factor <= MAX_FACTOR,
            ;
            assert(entity_within(parallax_step(e, dt), b + MAX_DT * MAX_FACTOR));
        }
        let r = parallax_result(s, dt);
        assert(forall|i: int| 0 <= i < r.len() ==> entity_within(#[trigger] r[i], b + MAX_DT * MAX_FACTOR));
    }
}

/// Law: the exact despawn line.  On a pool of one scrolling entity, a
/// parallax tick moves its `x` down by exactly `dt * factor` and keeps it
/// exactly when the moved `x` is still strictly above
/// `-(SCREEN_WIDTH + width) / 2`; at or below that line the entity is
/// destroyed.
pub proof fn lemma_hazard_despawn(e: Entity, dt: int)
    requires
        parallax_affects(e),
        entity_within(e, COORD_LIMIT as int),
        0 <= dt <= MAX_DT,
    ensures
        ({
            let nx = e.transform->Some_0.x - dt * e.parallax->Some_0.factor;
            if 2 * nx > -(SCREEN_WIDTH + e.parallax->Some_0.width) {
                &&& parallax_result(seq![e], dt) == seq![parallax_step(e, dt)]
                &&& parallax_step(e, dt).transform->Some_0.x == nx
                &&& parallax_step(e, dt).transform->Some_0.y == e.transform->Some_0.y
            } else {
                parallax_result(seq![e], dt) == Seq::<Entity>::empty()
            }
        }),
{
    let p = e.parallax->Some_0;
    assert(0 <= dt * p.factor <= MAX_DT * MAX_FACTOR) by (nonlinear_arith)
        requires
            0 <= dt <= MAX_DT,
            0 <= p.factor <= MAX_FACTOR,
    ;
    assert(seq![e].drop_last() =~= Seq::<Entity>::empty());
    assert(seq![e].last() == e);
    assert(parallax_result(Seq::<Entity>::empty(), dt) =~= Seq::<Entity>::empty());
    let nx = e.transform->Some_0.x - dt * p.factor;
    let stepped = parallax_step(e, dt);
    assert(stepped.transform->Some_0.x == nx);
    assert(stepped.parallax == e.parallax);
    assert(parallax_keeps(stepped) == (2 * nx > -(SCREEN_WIDTH + p.width)));
    if 2 * nx > -(SCREEN_WIDTH + p.width) {
        assert(parallax_result(seq![e], dt) =~= Seq::<Entity>::empty().push(stepped));
        assert(Seq::<Entity>::empty().push(stepped) =~= seq![stepped]);
    }
}

/// Law: the coral despawn line.  A hazard as the spawner creates it (factor
/// 80, despawn width 16) on the 200-unit screen, standing at `x`, survives a
/// parallax tick of `dt` exactly when `x - 80 * dt` stays strictly above
/// -108 units (here in thousandths); at or below that line it is destroyed.
pub proof fn lemma_coral_despawn_line(e: Entity, dt: int)
    requires
        parallax_affects(e),
        entity_within(e, COORD_LIMIT as int),
        e.parallax->Some_0.factor == 80,
        e.parallax->Some_0.width == 16_000,
        0 <= dt <= MAX_DT,
    ensures
        ({
            let moved = e.transform->Some_0.x - 80 * dt;
            if moved > -108_000 {
                &&& parallax_result(seq![e], dt) == seq![parallax_step(e, dt)]
                &&& parallax_step(e, dt).transform->Some_0.x == moved
            } else {
                parallax_result(seq![e], dt) == Seq::<Entity>::empty()
            }
        }),
{
    lemma_hazard_despawn(e, dt);
}

/// Law: scroll steps compose.  Stepping by `dt1` and then by `dt2` is one
/// step by `dt1 + dt2`, so after a total scrolled time `t` an entity stands
/// exactly at `x - t * factor`, wherever the tick boundaries fell.
pub proof fn lemma_parallax_steps_compose(e: Entity, dt1: int, dt2: int)
    requires
        parallax_affects(e),
        entity_within(e, COORD_LIMIT as int),
        0 <= dt1 <= MAX_DT,
        0 <= dt2 <= MAX_DT,
    ensures
        parallax_step(parallax_step(e, dt1), dt2) == parallax_step(e, dt1 + dt2),
{
    let p = e.parallax->Some_0;
    assert((dt1 + dt2) * p.factor == dt1 * p.factor + dt2 * p.factor) by (nonlinear_arith);
    assert(0 <= dt1 * p.factor <= MAX_DT * MAX_FACTOR && 0 <= dt2 * p.factor <= MAX_DT
        * MAX_FACTOR) by (nonlinear_arith)
        requires
            0 <= dt1 <= MAX_DT,
            0 <= dt2 <= MAX_DT,
            0 <= p.factor <= MAX_FACTOR,
    ;
    assert(parallax_step(parallax_step(e, dt1), dt2) == parallax_step(e, dt1 + dt2));
}

/// Moves every scrolling entity left by `dt * factor` each tick and destroys
/// the ones that have fully crossed the left screen edge; destruction here is
/// the sole mechanism bounding the hazard count.
pub struct ParallaxSystem;

impl ParallaxSystem {
    /// While `winning` is `true` the pool becomes [`parallax_result`]: moved
    /// where affected, filtered where off screen, untouched otherwise; the
    /// scoreboard never changes, and once the run is lost the whole world is
    /// left untouched (a lost run freezes outstanding hazards on screen).
    pub fn run(&mut self, world: &mut World, dt: i64)
        requires
            0 <= dt <= MAX_DT,
            all_within(old(world).entities@, COORD_LIMIT as int),
        ensures
            final(world).scoreboard == old(world).scoreboard,
            old(world).scoreboard.winning ==> final(world).entities@
                == parallax_result(old(world).entities@, dt as int),
            !old(world).scoreboard.winning ==> *final(world) == *old(world),
    {
        if !world.scoreboard.winning {
            return;
        }
        let ghost orig: Seq<Entity> = world.entities@;
        let mut kept: Vec<Entity> = Vec::new();
        let n = world.entities.len();
        let mut i: usize = 0;
        while i < n
            invariant
                i <= n,
                n == orig.len(),
                world.entities@ == orig.skip(i as int),
                kept@ == parallax_result(orig.take(i as int), dt as int),
                world.scoreboard == old(world).scoreboard,
                all_within(orig, COORD_LIMIT as int),
                0 <= dt <= MAX_DT,
            decreases n - i,
        {
            proof {
                assert(entity_within(orig[i as int], COORD_LIMIT as int));
                assert(orig.skip(i as int)[0] == orig[i as int]);
            }
            let mut e = world.entities.remove(0);
            proof {
                assert(orig.skip(i as int).remove(0) =~= orig.skip(i as int + 1));
            }
            proof {
                assert(e == orig[i as int]);
            }
            let affected = e.transform.is_some() && e.parallax.is_some();
            if affected {
                let (factor, width) = match &e.parallax {
                    Some(p) => (p.factor, p.width),
                    None => (0, 0),
                };
                proof {
                    assert(0 <= factor <= MAX_FACTOR && 0 <= width <= COORD_LIMIT);
                    assert(0 <= dt * factor <= MAX_DT * MAX_FACTOR) by (nonlinear_arith)
                        requires
                            0 <= dt <= MAX_DT,
                            0 <= factor <= MAX_FACTOR,
                    ;
                }
                match &mut e.transform {
                    Some(t) => {
                        let nx = t.x - dt * factor;
                        t.x = nx;
                        if 2 * nx > -(SCREEN_WIDTH + width) {
                            kept.push(e);
                        }
                    }
                    None => {}
                }
            } else {
                kept.push(e);
            }
            i = i + 1;
            proof {
                assert(orig.take(i as int).drop_last() =~= orig.take(i as int - 1));
                assert(orig.take(i as int).last() == orig[i as int - 1]);
            }
        }
        proof {
            assert(orig.take(n as int) =~= orig);
            assert(world.entities@ =~= Seq::<Entity>::empty());
        }
        world.entities = kept;
    }
}

} // verus!
