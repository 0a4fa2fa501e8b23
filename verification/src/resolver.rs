//! One tick of the solver: gravity, the boundary, the collisions, the step.

use vstd::prelude::*;
use macroquad::math::Vec2;
use crate::algebra::{whole, whole_vec, zero_vec, Scalar};
use crate::constraint::Constraint;
use crate::entity::Entity;
use crate::schedule::{all_pairs, is_pair, row_pairs, rows_pairs};
use crate::schedule::{lemma_all_pairs_once_in_order, lemma_no_pair_of_fewer_than_two};

verus! {

/// The population after gravity `g` has been added to what is asked of every
/// body.
pub open spec fn pulled(s: Seq<Entity>, g: Vec2) -> Seq<Entity> {
    Seq::new(s.len(), |i: int| s[i].with_motion(s[i].motion.accelerated(g)))
}

/// The population after every body has been brought back inside `c`.
pub open spec fn bounded(s: Seq<Entity>, c: Constraint) -> Seq<Entity> {
    Seq::new(s.len(), |i: int| s[i].at(c.clamped(s[i].motion.position)))
}

/// The population after every body has taken one step of length `dt`.
pub open spec fn stepped(s: Seq<Entity>, dt: Vec2) -> Seq<Entity> {
    Seq::new(s.len(), |i: int| s[i].with_motion(s[i].motion.stepped(dt)))
}

/// The population after the collision of the bodies `i` and `j` has been
/// resolved.
pub open spec fn pair_resolved(s: Seq<Entity>, i: int, j: int) -> Seq<Entity> {
    let (a, b) = s[i].parted(s[j]);
    s.update(i, a).update(j, b)
}

/// The population after the collisions of `pairs` have been resolved, one
/// after the other. Each pair starts from where the ones before left its two
/// bodies.
pub open spec fn resolved_along(s: Seq<Entity>, pairs: Seq<(int, int)>) -> Seq<Entity>
    decreases pairs.len(),
{
    if pairs.len() == 0 {
        s
    } else {
        pair_resolved(resolved_along(s, pairs.drop_last()), pairs.last().0, pairs.last().1)
    }
}

/// The population after the collision pass: every pair `(i, j)` with `i < j`
/// is resolved once, by ascending `i` and then ascending `j`.
pub open spec fn collided(s: Seq<Entity>) -> Seq<Entity> {
    resolved_along(s, all_pairs(s.len() as int))
}

/// The population one tick later.
pub open spec fn ticked(s: Seq<Entity>, g: Vec2, c: Constraint, dt: Vec2) -> Seq<Entity> {
    stepped(collided(bounded(pulled(s, g), c)), dt)
}

/// Whether `t` is `s` with nothing but positions changed: as many bodies, and
/// each with the radius, the colour, the previous position and the
/// acceleration that it had.
pub open spec fn only_moved(s: Seq<Entity>, t: Seq<Entity>) -> bool {
    &&& t.len() == s.len()
    &&& forall|k: int| 0 <= k < s.len() ==> #[trigger] t[k] == s[k].at(t[k].motion.position)
}

/// Whether `t` holds the bodies of `s`: as many, and each with the radius and
/// the colour that it had.
pub open spec fn same_bodies(s: Seq<Entity>, t: Seq<Entity>) -> bool {
    &&& t.len() == s.len()
    &&& forall|k: int|
        0 <= k < s.len() ==> (#[trigger] t[k]).radius == s[k].radius && t[k].color == s[k].color
}

/// Whether no two bodies of `s` overlap.
pub open spec fn all_apart(s: Seq<Entity>) -> bool {
    forall|i: int, j: int| 0 <= i < j < s.len() ==> !(#[trigger] s[i].overlaps(#[trigger] s[j]))
}

/// Whether every one of `pairs` is a pair of two of `n` bodies.
pub open spec fn pairs_within(pairs: Seq<(int, int)>, n: int) -> bool {
    forall|k: int| 0 <= k < pairs.len() ==> is_pair(#[trigger] pairs[k], n)
}

/// Resolving a pair touches its two bodies and no other, and changes nothing
/// but their positions.
pub proof fn lemma_pair_resolved_touches_two(s: Seq<Entity>, i: int, j: int)
    requires
        is_pair((i, j), s.len() as int),
    ensures
        only_moved(s, pair_resolved(s, i, j)),
        forall|k: int|
            0 <= k < s.len() && k != i && k != j ==> #[trigger] pair_resolved(s, i, j)[k] == s[k],
        !s[i].overlaps(s[j]) ==> pair_resolved(s, i, j) == s,
{
    if !s[i].overlaps(s[j]) {
        assert(pair_resolved(s, i, j) =~= s);
    }
}

/// A pair more is resolved after the others.
proof fn lemma_resolved_along_push(s: Seq<Entity>, pairs: Seq<(int, int)>, p: (int, int))
    ensures
        resolved_along(s, pairs.push(p)) == pair_resolved(resolved_along(s, pairs), p.0, p.1),
{
    assert(pairs.push(p).drop_last() =~= pairs);
}

/// Resolving pairs changes nothing but positions.
pub proof fn lemma_resolved_along_only_moves(s: Seq<Entity>, pairs: Seq<(int, int)>)
    requires
        pairs_within(pairs, s.len() as int),
    ensures
        only_moved(s, resolved_along(s, pairs)),
    decreases pairs.len(),
{
    if pairs.len() > 0 {
        lemma_resolved_along_only_moves(s, pairs.drop_last());
        assert(is_pair(pairs[pairs.len() - 1], s.len() as int));
    }
}

/// The collision pass keeps the number of bodies, and of each body the
/// radius, the colour, the previous position and the acceleration.
pub proof fn lemma_collided_only_moves(s: Seq<Entity>)
    ensures
        only_moved(s, collided(s)),
{
    lemma_all_pairs_once_in_order(s.len() as int);
    lemma_resolved_along_only_moves(s, all_pairs(s.len() as int));
}

/// Where no two bodies overlap, resolving pairs leaves the population as it
/// is.
pub proof fn lemma_resolved_along_apart_unmoved(s: Seq<Entity>, pairs: Seq<(int, int)>)
    requires
        pairs_within(pairs, s.len() as int),
        all_apart(s),
    ensures
        resolved_along(s, pairs) == s,
    decreases pairs.len(),
{
    if pairs.len() > 0 {
        lemma_resolved_along_apart_unmoved(s, pairs.drop_last());
        let p = pairs[pairs.len() - 1];
        assert(is_pair(p, s.len() as int));
        assert(!s[p.0].overlaps(s[p.1]));
        assert(pair_resolved(s, p.0, p.1) =~= s);
    }
}

/// Bodies of which no two overlap are not moved by the collision pass.
pub proof fn lemma_apart_unmoved(s: Seq<Entity>)
    requires
        all_apart(s),
    ensures
        collided(s) == s,
{
    lemma_all_pairs_once_in_order(s.len() as int);
    lemma_resolved_along_apart_unmoved(s, all_pairs(s.len() as int));
}

/// A population of fewer than two bodies has no pair, and the collision pass
/// leaves it as it is.
pub proof fn lemma_fewer_than_two_unmoved(s: Seq<Entity>)
    requires
        s.len() < 2,
    ensures
        collided(s) == s,
{
    lemma_no_pair_of_fewer_than_two(s.len() as int);
}

/// The collision pass on two bodies resolves their one pair.
pub proof fn lemma_two_bodies(a: Entity, b: Entity)
    ensures
        collided(seq![a, b]) == seq![a.parted(b).0, a.parted(b).1],
{
    let s = seq![a, b];
    let none = Seq::<(int, int)>::empty();
    assert(rows_pairs(0, 2) == none);
    assert(row_pairs(0, 1) == none);
    assert(row_pairs(0, 2) == none.push((0, 1)));
    assert(rows_pairs(1, 2) == none + none.push((0, 1)));
    assert(row_pairs(1, 2) == none);
    assert(all_pairs(2) =~= none.push((0, 1)));
    lemma_resolved_along_push(s, none, (0, 1));
    assert(resolved_along(s, none) == s);
    assert(pair_resolved(s, 0, 1) =~= seq![a.parted(b).0, a.parted(b).1]);
}

/// A tick neither adds nor removes a body, and changes no radius and no
/// colour. After it nothing is asked of any body, and the previous position of
/// each is where the collision pass left it.
pub proof fn lemma_tick_keeps_bodies(s: Seq<Entity>, g: Vec2, c: Constraint, dt: Vec2)
    ensures
        same_bodies(s, ticked(s, g, c, dt)),
        forall|k: int|
            0 <= k < s.len() ==> {
                &&& (#[trigger] ticked(s, g, c, dt)[k]).motion.acceleration == zero_vec()
                &&& ticked(s, g, c, dt)[k].motion.previous_position == collided(
                    bounded(pulled(s, g), c),
                )[k].motion.position
            },
{
    let b = bounded(pulled(s, g), c);
    lemma_collided_only_moves(b);
}

/// The solver. It holds nothing but the gravity that it applies.
#[derive(Clone, Copy, Debug)]
pub struct Resolver {
    pub gravity: Vec2,
}

impl Resolver {
    /// A solver with the given gravity.
    pub fn new(gravity: Vec2) -> (r: Resolver)
        ensures
            r.gravity == gravity,
    {
        Resolver { gravity }
    }

    /// One tick: gravity, then the boundary, then the collisions, then the
    /// step of length `dt`. Each pass runs over the whole population before
    /// the next begins.
    pub fn update(&self, entities: &mut Vec<Entity>, constraint: &Constraint, dt: Scalar)
        ensures
            final(entities)@ == ticked(old(entities)@, self.gravity, *constraint, dt@),
            same_bodies(old(entities)@, final(entities)@),
    {
        proof {
            lemma_tick_keeps_bodies(old(entities)@, self.gravity, *constraint, dt@);
        }
        self.apply_gravity(entities);
        self.apply_constraint(entities, constraint);
        self.apply_collisions(entities);
        self.update_position(entities, dt);
    }

    /// Every body takes one step of length `dt`.
    pub fn update_position(&self, entities: &mut Vec<Entity>, dt: Scalar)
        ensures
            final(entities)@ == stepped(old(entities)@, dt@),
    {
        let n = entities.len();
        let mut i: usize = 0;
        while i < n
            invariant
                i <= n,
                entities@.len() == n,
                old(entities)@.len() == n,
                forall|k: int| 0 <= k < i ==> entities@[k] == stepped(old(entities)@, dt@)[k],
                forall|k: int| i <= k < n ==> entities@[k] == old(entities)@[k],
            decreases n - i,
        {
            entities[i].motion.update_position(dt);
            i += 1;
        }
        assert(entities@ =~= stepped(old(entities)@, dt@));
    }

    /// Gravity is added to what is asked of every body.
    pub fn apply_gravity(&self, entities: &mut Vec<Entity>)
        ensures
            final(entities)@ == pulled(old(entities)@, self.gravity),
    {
        let n = entities.len();
        let mut i: usize = 0;
        while i < n
            invariant
                i <= n,
                entities@.len() == n,
                old(entities)@.len() == n,
                forall|k: int| 0 <= k < i ==> entities@[k] == pulled(old(entities)@, self.gravity)[k],
                forall|k: int| i <= k < n ==> entities@[k] == old(entities)@[k],
            decreases n - i,
        {
            entities[i].motion.accelerate(self.gravity);
            i += 1;
        }
        assert(entities@ =~= pulled(old(entities)@, self.gravity));
    }

    /// Every body is brought back inside the boundary.
    pub fn apply_constraint(&self, entities: &mut Vec<Entity>, constraint: &Constraint)
        ensures
            final(entities)@ == bounded(old(entities)@, *constraint),
    {
        let n = entities.len();
        let mut i: usize = 0;
        while i < n
            invariant
                i <= n,
                entities@.len() == n,
                old(entities)@.len() == n,
                forall|k: int| 0 <= k < i ==> entities@[k] == bounded(old(entities)@, *constraint)[k],
                forall|k: int| i <= k < n ==> entities@[k] == old(entities)@[k],
            decreases n - i,
        {
            constraint.clamp(&mut entities[i].motion);
            i += 1;
        }
        assert(entities@ =~= bounded(old(entities)@, *constraint));
    }

    /// Every pair of bodies is resolved once, by ascending first and then
    /// ascending second index. The pass is not repeated: a pair resolved early
    /// may overlap again after a later one.
    pub fn apply_collisions(&self, entities: &mut Vec<Entity>)
        ensures
            final(entities)@ == collided(old(entities)@),
            only_moved(old(entities)@, final(entities)@),
            all_apart(old(entities)@) ==> final(entities)@ == old(entities)@,
    {
        let n = entities.len();
        let mut i: usize = 0;
        while i < n
            invariant
                i <= n,
                entities@.len() == n,
                old(entities)@.len() == n,
                entities@ == resolved_along(old(entities)@, rows_pairs(i as int, n as int)),
            decreases n - i,
        {
            let ghost done = rows_pairs(i as int, n as int);
            let mut k: usize = i + 1;
            assert(done + row_pairs(i as int, k as int) =~= done);
            while k < n
                invariant
                    i < k <= n,
                    entities@.len() == n,
                    entities@ == resolved_along(
                        old(entities)@,
                        done + row_pairs(i as int, k as int),
                    ),
                decreases n - k,
            {
                proof {
                    let row = row_pairs(i as int, k as int);
                    let pair = (i as int, k as int);
                    assert(done + row.push(pair) =~= (done + row).push(pair));
                    lemma_resolved_along_push(old(entities)@, done + row, pair);
                }
                let mut a = entities[i];
                let mut b = entities[k];
                a.separate(&mut b);
                entities[i] = a;
                entities[k] = b;
                k += 1;
            }
            i += 1;
        }
        proof {
            lemma_collided_only_moves(old(entities)@);
            if all_apart(old(entities)@) {
                lemma_apart_unmoved(old(entities)@);
            }
        }
    }
}

impl Default for Resolver {
    /// A solver whose gravity is 10 along `y`.
    fn default() -> (r: Resolver)
        ensures
            r.gravity == whole_vec(0, 10),
    {
        Resolver::new(whole(0, 10))
    }
}

} // verus!
