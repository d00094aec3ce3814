//! The rank hierarchy: seven ordered ranks and the dominance predicate that
//! decides who may capture whom, with its two special-case exceptions.

use vstd::prelude::*;

verus! {

/// The seven ranks, strongest first. Outside the three special cases below,
/// rank `a` may capture rank `b` exactly when `rank_order(a) <= rank_order(b)`.
#[derive(Clone, Copy, Debug, PartialEq, Eq, Structural)]
pub enum Rank {
    General,
    Advisor,
    Elephant,
    Chariot,
    Horse,
    Cannon,
    Soldier,
}

/// Position of a rank in the dominance order; 0 is the strongest rank.
pub open spec fn rank_order(r: Rank) -> int {
    match r {
        Rank::General => 0,
        Rank::Advisor => 1,
        Rank::Elephant => 2,
        Rank::Chariot => 3,
        Rank::Horse => 4,
        Rank::Cannon => 5,
        Rank::Soldier => 6,
    }
}

/// Whether rank `a` dominates rank `b` (geometry is checked elsewhere):
/// the cannon dominates everything, the general dominates everything but the
/// soldier, the soldier dominates only soldiers and the general, and every
/// other rank dominates the ranks at or below its own order.
pub open spec fn spec_can_attack(a: Rank, b: Rank) -> bool {
    match a {
        Rank::Cannon => true,
        Rank::General => b != Rank::Soldier,
        Rank::Soldier => b == Rank::Soldier || b == Rank::General,
        _ => rank_order(a) <= rank_order(b),
    }
}

/// Position of a rank in the dominance order, as a runtime value.
fn rank_index(r: Rank) -> (n: u8)
    ensures
        n as int == rank_order(r),
{
    match r {
        Rank::General => 0,
        Rank::Advisor => 1,
        Rank::Elephant => 2,
        Rank::Chariot => 3,
        Rank::Horse => 4,
        Rank::Cannon => 5,
        Rank::Soldier => 6,
    }
}

impl Rank {
    /// Decides whether a piece of rank `self` may capture a piece of rank
    /// `other`, ignoring geometry. Asymmetric: evaluate attacker-then-defender.
    pub fn can_attack(&self, other: &Rank) -> (r: bool)
        ensures
            r == spec_can_attack(*self, *other),
    {
        match *self {
            Rank::Cannon => true,
            Rank::General => *other != Rank::Soldier,
            Rank::Soldier => *other == Rank::Soldier || *other == Rank::General,
            _ => rank_index(*self) <= rank_index(*other),
        }
    }
}

/// Dominance depends on the two ranks alone. The two exceptions hold exactly
/// for the general (never captures a soldier) and the soldier (captures only
/// soldiers and the general); the cannon dominates every rank; every other
/// pair follows the numeric order.
pub proof fn lemma_dominance(a: Rank, b: Rank)
    ensures
        a == Rank::Cannon ==> spec_can_attack(a, b),
        a == Rank::General ==> (spec_can_attack(a, b) <==> b != Rank::Soldier),
        a == Rank::Soldier ==> (spec_can_attack(a, b) <==> (b == Rank::Soldier || b
            == Rank::General)),
        a != Rank::Cannon && a != Rank::General && a != Rank::Soldier ==> (spec_can_attack(a, b)
            <==> rank_order(a) <= rank_order(b)),
{
}

/// How many pieces of a rank each side owns: one general, two each of the
/// middle ranks, five soldiers.
pub open spec fn rank_multiplicity(r: Rank) -> int {
    match r {
        Rank::General => 1,
        Rank::Soldier => 5,
        _ => 2,
    }
}

/// The canonical sixteen ranks of one color: one general, two each of the
/// middle ranks, five soldiers.
pub open spec fn canonical_ranks() -> Seq<Rank> {
    seq![
        Rank::General,
        Rank::Advisor,
        Rank::Advisor,
        Rank::Elephant,
        Rank::Elephant,
        Rank::Chariot,
        Rank::Chariot,
        Rank::Horse,
        Rank::Horse,
        Rank::Cannon,
        Rank::Cannon,
        Rank::Soldier,
        Rank::Soldier,
        Rank::Soldier,
        Rank::Soldier,
        Rank::Soldier,
    ]
}

/// The canonical sixteen ranks of one color, as a runtime vector.
pub fn rank_set() -> (v: Vec<Rank>)
    ensures
        v@ == canonical_ranks(),
{
    let mut v: Vec<Rank> = Vec::new();
    v.push(Rank::General);
    v.push(Rank::Advisor);
    v.push(Rank::Advisor);
    v.push(Rank::Elephant);
    v.push(Rank::Elephant);
    v.push(Rank::Chariot);
    v.push(Rank::Chariot);
    v.push(Rank::Horse);
    v.push(Rank::Horse);
    v.push(Rank::Cannon);
    v.push(Rank::Cannon);
    v.push(Rank::Soldier);
    v.push(Rank::Soldier);
    v.push(Rank::Soldier);
    v.push(Rank::Soldier);
    v.push(Rank::Soldier);
    proof {
        assert(v@ =~= canonical_ranks());
    }
    v
}

} // verus!
