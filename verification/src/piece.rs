//! A piece: an immutable rank and color together with a revealed flag that
//! only ever moves from face down to face up.

use crate::game::Color;
use crate::rank::spec_can_attack;
use crate::rank::Rank;
use vstd::prelude::*;

verus! {

/// One piece. A piece is owned by exactly one board slot at a time and is
/// relocated, never copied, by a move or an attack.
#[derive(Clone, Copy, Debug, PartialEq, Eq, Structural)]
pub struct Piece {
    pub rank: Rank,
    pub color: Color,
    pub revealed: bool,
}

impl Piece {
    /// A new piece starts face down.
    pub fn new(rank: Rank, color: Color) -> (p: Piece)
        ensures
            p == (Piece { rank, color, revealed: false }),
    {
        Piece { rank, color, revealed: false }
    }

    /// Whether this piece dominates `other` by rank alone; the board geometry
    /// is checked elsewhere.
    pub fn can_attack(&self, other: &Piece) -> (r: bool)
        ensures
            r == spec_can_attack(self.rank, other.rank),
    {
        self.rank.can_attack(&other.rank)
    }

    pub fn color(&self) -> (c: Color)
        ensures
            c == self.color,
    {
        self.color
    }

    pub fn is_revealed(&self) -> (r: bool)
        ensures
            r == self.revealed,
    {
        self.revealed
    }

    pub fn rank(&self) -> (r: Rank)
        ensures
            r == self.rank,
    {
        self.rank
    }

    /// Turns the piece face up; rank and color are unchanged, and nothing
    /// ever turns a piece face down again.
    pub fn turn_face_up(&mut self)
        ensures
            final(self).rank == old(self).rank,
            final(self).color == old(self).color,
            final(self).revealed,
    {
        self.revealed = true;
    }
}

} // verus!
