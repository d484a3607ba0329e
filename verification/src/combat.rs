//! Combat rules: which collisions are hits.

use vstd::prelude::*;

verus! {

/// One body of a collision: its entity, whether it carries a hitbox, and
/// whether it carries a hurtbox that is not currently immune.
#[derive(Clone, Copy, Debug, PartialEq, Eq, Structural)]
pub struct CollisionSide {
    pub entity: u64,
    pub hitbox: bool,
    pub vulnerable: bool,
}

/// The hits of one collision, as (hitbox entity, hurtbox entity): first with
/// `a` hitting `b`, then `b` hitting `a`.
pub open spec fn hits_of(a: CollisionSide, b: CollisionSide) -> Seq<(u64, u64)> {
    (if a.hitbox && b.vulnerable {
        seq![(a.entity, b.entity)]
    } else {
        Seq::empty()
    }) + (if b.hitbox && a.vulnerable {
        seq![(b.entity, a.entity)]
    } else {
        Seq::empty()
    })
}

/// The hits of a list of collisions, in order.
pub open spec fn all_hits(collisions: Seq<(CollisionSide, CollisionSide)>) -> Seq<(u64, u64)>
    decreases collisions.len(),
{
    if collisions.len() == 0 {
        Seq::empty()
    } else {
        all_hits(collisions.drop_last()) + hits_of(collisions.last().0, collisions.last().1)
    }
}

/// The hits caused by the collisions that started this frame: a hitbox that
/// touches a vulnerable hurtbox hits it, whichever body was listed first.
pub fn trigger_hit(collisions: &Vec<(CollisionSide, CollisionSide)>) -> (hits: Vec<(u64, u64)>)
    ensures
        hits@ == all_hits(collisions@),
{
    let mut hits: Vec<(u64, u64)> = Vec::new();
    let mut i: usize = 0;
    while i < collisions.len()
        invariant
            0 <= i <= collisions@.len(),
            hits@ == all_hits(collisions@.take(i as int)),
        decreases collisions@.len() - i,
    {
        let (a, b) = collisions[i];
        let ghost before = hits@;
        proof {
            assert(collisions@.take(i + 1).drop_last() =~= collisions@.take(i as int));
        }
        if a.hitbox && b.vulnerable {
            hits.push((a.entity, b.entity));
        }
        if b.hitbox && a.vulnerable {
            hits.push((b.entity, a.entity));
        }
        assert(hits@ =~= before + hits_of(a, b));
        i = i + 1;
    }
    assert(collisions@.take(collisions@.len() as int) =~= collisions@);
    hits
}

/// Whether a shield bubble shows: exactly while its actor is immune.
pub fn shield_visible(immune: bool) -> (visible: bool)
    ensures
        visible == immune,
{
    immune
}

/// An immune hurtbox is never hit, and a body without a hitbox hits nothing.
pub proof fn law_immune_never_hit(a: CollisionSide, b: CollisionSide)
    ensures
        !b.vulnerable && !a.vulnerable ==> hits_of(a, b).len() == 0,
        !a.hitbox && !b.hitbox ==> hits_of(a, b).len() == 0,
        hits_of(a, b) == hits_of(b, a).reverse(),
{
    assert(hits_of(a, b) =~= hits_of(b, a).reverse());
}

} // verus!
