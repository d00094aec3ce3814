//! The engine's laws: properties that tie the board, turn and selection
//! operations together, stated over the abstract state and proved once for
//! all inputs.

use crate::game::adjacent;
use crate::game::cannon_path_ok;
use crate::game::opposite;
use crate::game::spec_click;
use crate::game::spec_flip;
use crate::game::spec_update;
use crate::game::start_pieces;
use crate::game::valid_attack;
use crate::game::valid_move;
use crate::game::Color;
use crate::game::CommandError;
use crate::game::GameView;
use crate::game::Msg;
use crate::game::SelectionState;
use crate::game::TurnState;
use crate::piece::Piece;
use crate::rank::rank_multiplicity;
use crate::rank::spec_can_attack;
use crate::rank::Rank;
use vstd::prelude::*;

verus! {

/// How many slots of the board hold exactly the piece `p`.
pub open spec fn piece_count(board: Seq<Option<Piece>>, p: Piece) -> int
    decreases board.len(),
{
    if board.len() == 0 {
        0
    } else {
        (if board.last() == Some(p) {
            1int
        } else {
            0int
        }) + piece_count(board.drop_last(), p)
    }
}

/// `piece_count` agrees with the multiset reading of the board.
pub proof fn lemma_piece_count_multiset(board: Seq<Option<Piece>>, p: Piece)
    ensures
        piece_count(board, p) == board.to_multiset().count(Some(p)),
    decreases board.len(),
{
    broadcast use vstd::seq_lib::group_to_multiset_ensures;
    broadcast use vstd::multiset::group_multiset_axioms;

    if board.len() == 0 {
        assert(!board.contains(Some(p)));
    } else {
        let prefix = board.drop_last();
        let last = board.last();
        lemma_piece_count_multiset(prefix, p);
        assert(board =~= prefix.push(last));
        assert(prefix.push(last).to_multiset() =~= prefix.to_multiset().insert(last));
    }
}

/// The canonical start set holds, for each rank and color, exactly the
/// rank's multiplicity of face-down pieces.
pub proof fn lemma_start_counts(r: Rank, c: Color)
    ensures
        piece_count(start_pieces(), Piece { rank: r, color: c, revealed: false })
            == rank_multiplicity(r),
{
    reveal_with_fuel(piece_count, 33);
}

/// Immediately after initialization the board is a permutation of the
/// canonical start set: 32 slots, every slot occupied by a face-down piece,
/// and for each rank and color exactly the rank's multiplicity of pieces.
pub proof fn lemma_initial_board(v: GameView, r: Rank, c: Color)
    requires
        v.board.to_multiset() == start_pieces().to_multiset(),
    ensures
        v.board.len() == 32,
        piece_count(v.board, Piece { rank: r, color: c, revealed: false }) == rank_multiplicity(
            r,
        ),
        forall|i: int|
            0 <= i < v.board.len() ==> (#[trigger] v.board[i] matches Some(p) && !p.revealed),
{
    broadcast use vstd::seq_lib::group_to_multiset_ensures;

    let target = Piece { rank: r, color: c, revealed: false };
    lemma_piece_count_multiset(v.board, target);
    lemma_piece_count_multiset(start_pieces(), target);
    lemma_start_counts(r, c);
    assert(v.board.len() == 32) by {
        assert(v.board.to_multiset().len() == v.board.len());
        assert(start_pieces().to_multiset().len() == start_pieces().len());
    }
    assert forall|i: int|
        0 <= i < v.board.len() implies (#[trigger] v.board[i] matches Some(p) && !p.revealed) by {
        assert(v.board.contains(v.board[i]));
        assert(v.board.to_multiset().count(v.board[i]) > 0);
        assert(start_pieces().to_multiset().count(v.board[i]) > 0);
        assert(start_pieces().contains(v.board[i]));
        let j = choose|j: int|
            0 <= j < start_pieces().len() && start_pieces()[j] == v.board[i];
        assert(start_pieces()[j] == v.board[i]);
    }
}

/// A move command succeeds exactly when it is a valid move: a side is to
/// move, the source holds that side's piece, the destination is empty and
/// the two slots are orthogonally adjacent. On success the source slot is
/// emptied, the destination holds the very piece that stood on the source,
/// every other slot is untouched, the selection is cleared and the turn
/// flips; a rejected move changes nothing.
pub proof fn lemma_move(v: GameView, from: usize, to: usize)
    requires
        v.wf(),
    ensures
        spec_update(v, Msg::Move(from, to)).1 is Ok <==> valid_move(
            v.board,
            v.turn,
            from as int,
            to as int,
        ),
        valid_move(v.board, v.turn, from as int, to as int) ==> ({
            let w = spec_update(v, Msg::Move(from, to)).0;
            &&& v.board[to as int] is None
            &&& adjacent(from as int, to as int)
            &&& w.board[from as int] is None
            &&& w.board[to as int] == v.board[from as int]
            &&& forall|i: int|
                0 <= i < 32 && i != from as int && i != to as int ==> w.board[i] == v.board[i]
            &&& w.sel is Empty
            &&& w.turn == spec_flip(v.turn)
        }),
        spec_update(v, Msg::Move(from, to)).1 is Err ==> spec_update(v, Msg::Move(from, to)).0
            == v,
{
    if valid_move(v.board, v.turn, from as int, to as int) {
        assert(from as int != to as int);
    }
}

/// An attack command succeeds exactly when it passes the turn, color and
/// geometry rules and the attacker's rank dominates the defender's. On
/// success the slots are of opposite colors; a non-cannon attacker stands
/// orthogonally adjacent, while a cannon jumps exactly two occupied slots,
/// of either color, along a shared row or column. The defender is removed
/// from the game outright: the attacker relocates onto its slot, the source
/// is emptied, every other slot is untouched, the selection is cleared and
/// the turn flips. A rejected attack changes nothing.
pub proof fn lemma_attack(v: GameView, from: usize, to: usize)
    requires
        v.wf(),
    ensures
        spec_update(v, Msg::Attack(from, to)).1 is Ok <==> (valid_attack(
            v.board,
            v.turn,
            from as int,
            to as int,
        ) && spec_can_attack(
            v.board[from as int]->Some_0.rank,
            v.board[to as int]->Some_0.rank,
        )),
        spec_update(v, Msg::Attack(from, to)).1 is Ok ==> ({
            let w = spec_update(v, Msg::Attack(from, to)).0;
            let fp = v.board[from as int]->Some_0;
            let tp = v.board[to as int]->Some_0;
            &&& v.board[from as int] is Some
            &&& v.board[to as int] is Some
            &&& fp.color != tp.color
            &&& spec_can_attack(fp.rank, tp.rank)
            &&& (fp.rank != Rank::Cannon ==> adjacent(from as int, to as int))
            &&& (fp.rank == Rank::Cannon ==> cannon_path_ok(v.board, from as int, to as int))
            &&& w.board[from as int] is None
            &&& w.board[to as int] == v.board[from as int]
            &&& forall|i: int|
                0 <= i < 32 && i != from as int && i != to as int ==> w.board[i] == v.board[i]
            &&& w.sel is Empty
            &&& w.turn == spec_flip(v.turn)
        }),
        spec_update(v, Msg::Attack(from, to)).1 is Err ==> spec_update(v, Msg::Attack(from, to)).0
            == v,
{
    if valid_attack(v.board, v.turn, from as int, to as int) {
        assert(from as int != to as int);
    }
}

/// How the turn is derived: the very first reveal hands the turn to the
/// opponent of the revealed color; every later accepted reveal, move or
/// attack flips the side to move; select and unselect never touch the turn;
/// and a rejected command leaves it where it was.
pub proof fn lemma_turn_flow(v: GameView, msg: Msg)
    requires
        v.wf(),
    ensures
        (msg matches Msg::Reveal(pos) && spec_update(v, msg).1 is Ok && v.turn is Undetermined)
            ==> spec_update(v, msg).0.turn == TurnState::ToMove(
            opposite(v.board[msg->Reveal_0 as int]->Some_0.color),
        ),
        (spec_update(v, msg).1 is Ok && v.turn is ToMove && (msg is Reveal || msg is Move
            || msg is Attack)) ==> spec_update(v, msg).0.turn == TurnState::ToMove(
            opposite(v.turn->ToMove_0),
        ),
        (msg is Select || msg is Unselect) ==> spec_update(v, msg).0.turn == v.turn,
        spec_update(v, msg).1 is Err ==> spec_update(v, msg).0 == v,
{
}

/// Clicking a revealed piece arms it, and clicking the armed cell again
/// returns the selection to empty with neither the board nor the turn
/// changed.
pub proof fn lemma_click_same_cell_twice(v: GameView, pos: usize)
    requires
        v.wf(),
        pos < 32,
        v.sel is Empty,
        v.board[pos as int] matches Some(p) && p.revealed,
    ensures
        ({
            let first = spec_click(v, pos as int).0;
            let second = spec_click(first, pos as int).0;
            &&& spec_click(v, pos as int).1 == Ok::<Option<Msg>, CommandError>(
                Some(Msg::Select(pos)),
            )
            &&& first.sel == SelectionState::Armed(pos)
            &&& first.board == v.board
            &&& first.turn == v.turn
            &&& second.sel is Empty
            &&& second.board == v.board
            &&& second.turn == v.turn
        }),
{
}

} // verus!
