//! The game engine: board, turn and selection state machines, the legality
//! rules for reveal, move and attack, and the resolver that turns a clicked
//! cell into a command.
//!
//! The board is a fixed sequence of 32 slots of `Option<Piece>`, read as a
//! 4-row by 8-column grid where slot `i` lies at row `i / 8`, column `i % 8`.

use crate::piece::Piece;
use crate::rank::canonical_ranks;
use crate::rank::rank_set;
use crate::rank::spec_can_attack;
use crate::rank::Rank;
use vstd::prelude::*;

verus! {

/// The two sides.
#[derive(Clone, Copy, Debug, PartialEq, Eq, Structural)]
pub enum Color {
    Black,
    Red,
}

/// Whose turn it is. `Undetermined` lasts until the first reveal; from then
/// on it is always `ToMove` of one side.
#[derive(Clone, Copy, Debug, PartialEq, Eq, Structural)]
pub enum TurnState {
    Undetermined,
    ToMove(Color),
}

/// At most one cell is armed, awaiting the second click of a gesture.
#[derive(Clone, Copy, Debug, PartialEq, Eq, Structural)]
pub enum SelectionState {
    Empty,
    Armed(usize),
}

/// The commands a click can resolve to.
#[derive(Clone, Copy, Debug, PartialEq, Eq, Structural)]
pub enum Msg {
    Reveal(usize),
    Move(usize, usize),
    Attack(usize, usize),
    Select(usize),
    Unselect,
}

/// Why a command was rejected. A rejected command leaves every part of the
/// state unchanged.
#[derive(Clone, Copy, Debug, PartialEq, Eq, Structural)]
pub enum CommandError {
    /// The reveal target is empty or already face up.
    InvalidReveal,
    /// The select target is empty or still face down.
    InvalidSelect,
    /// The move is non-adjacent, its destination is occupied, or the moving
    /// piece does not belong to the side to move.
    InvalidMove,
    /// The attack breaks the color, dominance or geometry rules, or the
    /// attacker does not belong to the side to move.
    InvalidAttack,
    /// A move or attack was asked for before any piece was revealed.
    IllegalTurnQuery,
}

/// The other side.
pub open spec fn opposite(c: Color) -> Color {
    match c {
        Color::Black => Color::Red,
        Color::Red => Color::Black,
    }
}

impl Color {
    /// The other side, as a runtime value.
    pub fn opposite(&self) -> (c: Color)
        ensures
            c == opposite(*self),
    {
        match *self {
            Color::Black => Color::Red,
            Color::Red => Color::Black,
        }
    }
}

/// Hands the turn to the other side; meaningful only once a side is to move.
pub open spec fn spec_flip(t: TurnState) -> TurnState
    recommends
        t is ToMove,
{
    match t {
        TurnState::Undetermined => TurnState::Undetermined,
        TurnState::ToMove(c) => TurnState::ToMove(opposite(c)),
    }
}

/// Number of board slots.
pub const BOARD_SLOTS: usize = 32;

/// Number of columns in a row.
pub const ROW_LEN: usize = 8;

/// The row of a slot index.
pub open spec fn row_of(pos: int) -> int {
    pos / 8
}

/// The column of a slot index.
pub open spec fn col_of(pos: int) -> int {
    pos % 8
}

/// Orthogonal adjacency: same row and columns one apart, or same column and
/// rows one apart.
pub open spec fn adjacent(a: int, b: int) -> bool {
    ||| (row_of(a) == row_of(b) && (col_of(a) == col_of(b) + 1 || col_of(b) == col_of(a) + 1))
    ||| (col_of(a) == col_of(b) && (row_of(a) == row_of(b) + 1 || row_of(b) == row_of(a) + 1))
}

/// Whether a slot holds a piece.
pub open spec fn occupied(board: Seq<Option<Piece>>, pos: int) -> bool {
    board[pos] is Some
}

/// How many of the slots in row `row`, at columns `lo` (inclusive) up to
/// `hi` (exclusive), hold a piece.
pub open spec fn occupied_cols(board: Seq<Option<Piece>>, row: int, lo: int, hi: int) -> int
    decreases hi - lo,
{
    if lo >= hi {
        0
    } else {
        (if occupied(board, row * 8 + lo) {
            1int
        } else {
            0int
        }) + occupied_cols(board, row, lo + 1, hi)
    }
}

/// How many of the slots in column `col`, at rows `lo` (inclusive) up to
/// `hi` (exclusive), hold a piece.
pub open spec fn occupied_rows(board: Seq<Option<Piece>>, col: int, lo: int, hi: int) -> int
    decreases hi - lo,
{
    if lo >= hi {
        0
    } else {
        (if occupied(board, lo * 8 + col) {
            1int
        } else {
            0int
        }) + occupied_rows(board, col, lo + 1, hi)
    }
}

/// The smaller of two numbers.
pub open spec fn min_of(a: int, b: int) -> int {
    if a < b {
        a
    } else {
        b
    }
}

/// The larger of two numbers.
pub open spec fn max_of(a: int, b: int) -> int {
    if a < b {
        b
    } else {
        a
    }
}

/// The cannon's capture geometry: attacker and target share a row or column,
/// are distinct, and exactly two occupied slots lie strictly between them.
pub open spec fn cannon_path_ok(board: Seq<Option<Piece>>, from: int, to: int) -> bool {
    if from != to && row_of(from) == row_of(to) {
        occupied_cols(
            board,
            row_of(from),
            min_of(col_of(from), col_of(to)) + 1,
            max_of(col_of(from), col_of(to)),
        ) == 2
    } else if from != to && col_of(from) == col_of(to) {
        occupied_rows(
            board,
            col_of(from),
            min_of(row_of(from), row_of(to)) + 1,
            max_of(row_of(from), row_of(to)),
        ) == 2
    } else {
        false
    }
}

/// A move is legal when a side is to move, the source holds that side's
/// piece, the destination is empty, and the two slots are orthogonally
/// adjacent.
pub open spec fn valid_move(board: Seq<Option<Piece>>, turn: TurnState, from: int, to: int) -> bool {
    &&& 0 <= from < 32
    &&& 0 <= to < 32
    &&& turn matches TurnState::ToMove(c)
    &&& board[from] matches Some(p) && p.color == turn->ToMove_0
    &&& board[to] is None
    &&& adjacent(from, to)
}

/// An attack passes the turn, color and geometry rules when a side is to
/// move, both slots are occupied, the attacker belongs to the side to move,
/// the colors differ, and either the attacker is no cannon and the slots are
/// adjacent, or the attacker is a cannon and the cannon geometry holds.
/// Rank dominance is checked separately, when the attack is applied.
pub open spec fn valid_attack(board: Seq<Option<Piece>>, turn: TurnState, from: int, to: int) -> bool {
    &&& 0 <= from < 32
    &&& 0 <= to < 32
    &&& turn is ToMove
    &&& board[from] matches Some(fp) && fp.color == turn->ToMove_0
    &&& board[to] matches Some(tp) && board[from]->Some_0.color != tp.color
    &&& if board[from]->Some_0.rank != Rank::Cannon {
        adjacent(from, to)
    } else {
        cannon_path_ok(board, from, to)
    }
}

/// The abstract state of a game: the 32 board slots, whose turn it is, and
/// which cell, if any, is armed.
pub ghost struct GameView {
    pub board: Seq<Option<Piece>>,
    pub turn: TurnState,
    pub sel: SelectionState,
}

impl GameView {
    /// Well-formedness: the board has exactly 32 slots and an armed cell is a
    /// real slot.
    pub open spec fn wf(self) -> bool {
        &&& self.board.len() == 32
        &&& (self.sel matches SelectionState::Armed(p) ==> p < 32)
    }
}

/// Whether a reveal of `pos` is accepted: the slot holds a face-down piece.
pub open spec fn reveal_allowed(v: GameView, pos: int) -> bool {
    &&& 0 <= pos < 32
    &&& v.board[pos] matches Some(p) && !p.revealed
}

/// Whether a select of `pos` is accepted: the slot holds a face-up piece.
pub open spec fn select_allowed(v: GameView, pos: int) -> bool {
    &&& 0 <= pos < 32
    &&& v.board[pos] matches Some(p) && p.revealed
}

/// The state after a reveal of `pos`: the piece turns face up in place; the
/// very first reveal hands the turn to the opponent of the revealed color,
/// every later reveal flips the side to move; the selection is untouched.
pub open spec fn spec_reveal(v: GameView, pos: int) -> GameView
    recommends
        reveal_allowed(v, pos),
{
    let p = v.board[pos]->Some_0;
    GameView {
        board: v.board.update(pos, Some(Piece { rank: p.rank, color: p.color, revealed: true })),
        turn: match v.turn {
            TurnState::Undetermined => TurnState::ToMove(opposite(p.color)),
            TurnState::ToMove(c) => TurnState::ToMove(opposite(c)),
        },
        sel: v.sel,
    }
}

/// The state after a piece relocates from `from` to `to`: whatever held `to`
/// is gone from the game, `from` is emptied, the selection is cleared and the
/// turn flips. Both a move and an attack end in this relocation.
pub open spec fn spec_relocate(v: GameView, from: int, to: int) -> GameView {
    GameView {
        board: v.board.update(to, v.board[from]).update(from, None),
        turn: spec_flip(v.turn),
        sel: SelectionState::Empty,
    }
}

/// What applying a command does: the state afterwards, and whether the
/// command was accepted or why it was rejected. A rejected command returns
/// the state unchanged.
pub open spec fn spec_update(v: GameView, msg: Msg) -> (GameView, Result<(), CommandError>) {
    match msg {
        Msg::Reveal(pos) => if reveal_allowed(v, pos as int) {
            (spec_reveal(v, pos as int), Ok(()))
        } else {
            (v, Err(CommandError::InvalidReveal))
        },
        Msg::Select(pos) => if select_allowed(v, pos as int) {
            (GameView { sel: SelectionState::Armed(pos), ..v }, Ok(()))
        } else {
            (v, Err(CommandError::InvalidSelect))
        },
        Msg::Unselect => (GameView { sel: SelectionState::Empty, ..v }, Ok(())),
        Msg::Move(from, to) => if v.turn is Undetermined {
            (v, Err(CommandError::IllegalTurnQuery))
        } else if valid_move(v.board, v.turn, from as int, to as int) {
            (spec_relocate(v, from as int, to as int), Ok(()))
        } else {
            (v, Err(CommandError::InvalidMove))
        },
        Msg::Attack(from, to) => if v.turn is Undetermined {
            (v, Err(CommandError::IllegalTurnQuery))
        } else if valid_attack(v.board, v.turn, from as int, to as int) && spec_can_attack(
            v.board[from as int]->Some_0.rank,
            v.board[to as int]->Some_0.rank,
        ) {
            (spec_relocate(v, from as int, to as int), Ok(()))
        } else {
            (v, Err(CommandError::InvalidAttack))
        },
    }
}

/// Which command a click on `pos` resolves to, if any. This is the
/// authoritative interaction table: with nothing armed, a face-down piece is
/// revealed, a face-up piece is selected and an empty cell does nothing;
/// with `cur` armed, a face-down piece is still revealed (the selection
/// persists), the armed cell itself is unselected, another face-up piece is
/// attacked when the attack passes the turn, color and geometry rules and
/// otherwise re-arms the selection on it, and an empty cell is moved to when
/// the move is legal and otherwise clears the selection.
pub open spec fn spec_resolve(v: GameView, pos: int) -> Option<Msg>
    recommends
        v.wf(),
        0 <= pos < 32,
{
    match v.sel {
        SelectionState::Empty => match v.board[pos] {
            None => None,
            Some(p) => if p.revealed {
                Some(Msg::Select(pos as usize))
            } else {
                Some(Msg::Reveal(pos as usize))
            },
        },
        SelectionState::Armed(cur) => match v.board[pos] {
            Some(p) => if !p.revealed {
                Some(Msg::Reveal(pos as usize))
            } else if pos == cur as int {
                Some(Msg::Unselect)
            } else if valid_attack(v.board, v.turn, cur as int, pos) {
                Some(Msg::Attack(cur, pos as usize))
            } else {
                Some(Msg::Select(pos as usize))
            },
            None => if valid_move(v.board, v.turn, cur as int, pos) {
                Some(Msg::Move(cur, pos as usize))
            } else {
                Some(Msg::Unselect)
            },
        },
    }
}

/// One user interaction: resolve the click to a command, if any, and apply
/// it. The result carries the applied command, `None` for a click that
/// resolved to nothing, or the error of a rejected command.
pub open spec fn spec_click(v: GameView, pos: int) -> (GameView, Result<
    Option<Msg>,
    CommandError,
>) {
    match spec_resolve(v, pos) {
        None => (v, Ok(None)),
        Some(msg) => {
            let r = spec_update(v, msg);
            (
                r.0,
                match r.1 {
                    Ok(_) => Ok(Some(msg)),
                    Err(e) => Err(e),
                },
            )
        },
    }
}

/// The canonical face-down start set, before shuffling: for each of the
/// sixteen canonical ranks one black and one red piece, side by side.
pub open spec fn start_pieces() -> Seq<Option<Piece>> {
    Seq::new(
        32,
        |i: int|
            Some(
                Piece {
                    rank: canonical_ranks()[i / 2],
                    color: if i % 2 == 0 {
                        Color::Black
                    } else {
                        Color::Red
                    },
                    revealed: false,
                },
            ),
    )
}

/// Extending a column range by one slot on the right adds that slot's count.
proof fn lemma_occupied_cols_extend(board: Seq<Option<Piece>>, row: int, lo: int, hi: int)
    requires
        lo <= hi,
    ensures
        occupied_cols(board, row, lo, hi + 1) == occupied_cols(board, row, lo, hi) + (if occupied(
            board,
            row * 8 + hi,
        ) {
            1int
        } else {
            0int
        }),
    decreases hi - lo,
{
    if lo < hi {
        lemma_occupied_cols_extend(board, row, lo + 1, hi);
        assert(occupied_cols(board, row, lo, hi + 1) == (if occupied(board, row * 8 + lo) {
            1int
        } else {
            0int
        }) + occupied_cols(board, row, lo + 1, hi + 1));
    } else {
        assert(occupied_cols(board, row, lo, hi) == 0);
        assert(occupied_cols(board, row, lo + 1, hi + 1) == 0);
        assert(occupied_cols(board, row, lo, hi + 1) == (if occupied(board, row * 8 + lo) {
            1int
        } else {
            0int
        }) + occupied_cols(board, row, lo + 1, hi + 1));
    }
}

/// Extending a row range by one slot at the bottom adds that slot's count.
proof fn lemma_occupied_rows_extend(board: Seq<Option<Piece>>, col: int, lo: int, hi: int)
    requires
        lo <= hi,
    ensures
        occupied_rows(board, col, lo, hi + 1) == occupied_rows(board, col, lo, hi) + (if occupied(
            board,
            hi * 8 + col,
        ) {
            1int
        } else {
            0int
        }),
    decreases hi - lo,
{
    if lo < hi {
        lemma_occupied_rows_extend(board, col, lo + 1, hi);
        assert(occupied_rows(board, col, lo, hi + 1) == (if occupied(board, lo * 8 + col) {
            1int
        } else {
            0int
        }) + occupied_rows(board, col, lo + 1, hi + 1));
    } else {
        assert(occupied_rows(board, col, lo, hi) == 0);
        assert(occupied_rows(board, col, lo + 1, hi + 1) == 0);
        assert(occupied_rows(board, col, lo, hi + 1) == (if occupied(board, lo * 8 + col) {
            1int
        } else {
            0int
        }) + occupied_rows(board, col, lo + 1, hi + 1));
    }
}

/// The row and column of a slot index.
fn get_pos(pos: usize) -> (r: (usize, usize))
    ensures
        r.0 as int == row_of(pos as int),
        r.1 as int == col_of(pos as int),
{
    (pos / ROW_LEN, pos % ROW_LEN)
}

/// The slot index of a row and column.
fn get_index(row: usize, col: usize) -> (r: usize)
    requires
        row < 4,
        col < 8,
    ensures
        r as int == row * 8 + col,
        r < 32,
{
    row * ROW_LEN + col
}

/// The two numbers in ascending order.
fn minmax(a: usize, b: usize) -> (r: (usize, usize))
    ensures
        r.0 as int == min_of(a as int, b as int),
        r.1 as int == max_of(a as int, b as int),
{
    if a > b {
        (b, a)
    } else {
        (a, b)
    }
}

/// Relies on rand's `SliceRandom::shuffle`: it reorders the slice in place,
/// so afterwards the vector holds the same elements, as a multiset, as
/// before, in an order chosen by the generator.
#[verifier::external_body]
fn shuffle_pieces(pieces: &mut Vec<Option<Piece>>)
    ensures
        final(pieces)@.len() == old(pieces)@.len(),
        final(pieces)@.to_multiset() == old(pieces)@.to_multiset(),
{
    rand::seq::SliceRandom::shuffle(pieces.as_mut_slice(), &mut rand::thread_rng());
}

/// The engine: the 32 board slots, whose turn it is, and the selection.
pub struct Game {
    current_board: Vec<Option<Piece>>,
    turn_state: TurnState,
    selection_state: SelectionState,
}

impl View for Game {
    type V = GameView;

    closed spec fn view(&self) -> GameView {
        GameView { board: self.current_board@, turn: self.turn_state, sel: self.selection_state }
    }
}

impl Game {
    /// Well-formedness of the engine state.
    pub open spec fn wf(&self) -> bool {
        self@.wf()
    }

    /// A fresh game: the canonical 32 pieces, all face down, shuffled into
    /// the 32 slots; no side to move yet and nothing selected. The board is a
    /// permutation of the canonical start set.
    pub fn new() -> (g: Game)
        ensures
            g.wf(),
            g@.board.len() == 32,
            g@.board.to_multiset() == start_pieces().to_multiset(),
            g@.turn == TurnState::Undetermined,
            g@.sel == SelectionState::Empty,
    {
        let ranks = rank_set();
        let mut pieces: Vec<Option<Piece>> = Vec::new();
        let mut idx: usize = 0;
        while idx < 16
            invariant
                ranks@ == canonical_ranks(),
                idx <= 16,
                pieces@.len() == 2 * idx,
                forall|j: int| 0 <= j < 2 * idx ==> pieces@[j] == start_pieces()[j],
            decreases 16 - idx,
        {
            let r = ranks[idx];
            pieces.push(Some(Piece::new(r, Color::Black)));
            pieces.push(Some(Piece::new(r, Color::Red)));
            idx = idx + 1;
        }
        proof {
            assert(pieces@ =~= start_pieces());
        }
        shuffle_pieces(&mut pieces);
        Game {
            current_board: pieces,
            turn_state: TurnState::Undetermined,
            selection_state: SelectionState::Empty,
        }
    }

    /// A game assembled from given parts, for setting up a position directly.
    pub fn from_parts(
        board: Vec<Option<Piece>>,
        turn_state: TurnState,
        selection_state: SelectionState,
    ) -> (g: Game)
        requires
            board@.len() == 32,
            selection_state matches SelectionState::Armed(p) ==> p < 32,
        ensures
            g@ == (GameView { board: board@, turn: turn_state, sel: selection_state }),
            g.wf(),
    {
        Game { current_board: board, turn_state, selection_state }
    }

    /// The slot at `pos`, for rendering.
    pub fn piece_at(&self, pos: usize) -> (r: Option<Piece>)
        requires
            self.wf(),
            pos < 32,
        ensures
            r == self@.board[pos as int],
    {
        self.current_board[pos]
    }

    /// Whose turn it is, for display.
    pub fn turn_state(&self) -> (t: TurnState)
        ensures
            t == self@.turn,
    {
        self.turn_state
    }

    /// The armed cell, if any, for highlighting.
    pub fn selection_state(&self) -> (s: SelectionState)
        ensures
            s == self@.sel,
    {
        self.selection_state
    }

    /// How many slots in row `row` strictly between columns `lo` and `hi`
    /// hold a piece.
    fn count_occupied_cols(&self, row: usize, lo: usize, hi: usize) -> (count: usize)
        requires
            self.wf(),
            row < 4,
            lo < hi,
            hi < 8,
        ensures
            count as int == occupied_cols(self@.board, row as int, lo as int + 1, hi as int),
    {
        let mut count: usize = 0;
        let mut i: usize = lo + 1;
        while i < hi
            invariant
                self@.board.len() == 32,
                row < 4,
                hi < 8,
                lo + 1 <= i <= hi,
                count as int == occupied_cols(self@.board, row as int, lo as int + 1, i as int),
                count as int <= i as int - lo as int - 1,
            decreases hi - i,
        {
            proof {
                lemma_occupied_cols_extend(self@.board, row as int, lo as int + 1, i as int);
            }
            if self.current_board[get_index(row, i)].is_some() {
                count = count + 1;
            }
            i = i + 1;
        }
        count
    }

    /// How many slots in column `col` strictly between rows `lo` and `hi`
    /// hold a piece.
    fn count_occupied_rows(&self, col: usize, lo: usize, hi: usize) -> (count: usize)
        requires
            self.wf(),
            col < 8,
            lo < hi,
            hi < 4,
        ensures
            count as int == occupied_rows(self@.board, col as int, lo as int + 1, hi as int),
    {
        let mut count: usize = 0;
        let mut i: usize = lo + 1;
        while i < hi
            invariant
                self@.board.len() == 32,
                col < 8,
                hi < 4,
                lo + 1 <= i <= hi,
                count as int == occupied_rows(self@.board, col as int, lo as int + 1, i as int),
                count as int <= i as int - lo as int - 1,
            decreases hi - i,
        {
            proof {
                lemma_occupied_rows_extend(self@.board, col as int, lo as int + 1, i as int);
            }
            if self.current_board[get_index(i, col)].is_some() {
                count = count + 1;
            }
            i = i + 1;
        }
        count
    }

    /// Decides move legality: a side is to move, the source piece is that
    /// side's, the destination is empty and orthogonally adjacent.
    pub fn is_valid_move(&self, from: usize, to: usize) -> (r: bool)
        requires
            self.wf(),
        ensures
            r == valid_move(self@.board, self@.turn, from as int, to as int),
    {
        if from >= BOARD_SLOTS || to >= BOARD_SLOTS {
            return false;
        }
        let to_move = match self.turn_state {
            TurnState::Undetermined => {
                return false;
            },
            TurnState::ToMove(c) => c,
        };
        let moving = match self.current_board[from] {
            None => {
                return false;
            },
            Some(p) => p,
        };
        if moving.color() != to_move {
            return false;
        }
        if self.current_board[to].is_some() {
            return false;
        }
        let (from_row, from_col) = get_pos(from);
        let (to_row, to_col) = get_pos(to);
        if from_row == to_row {
            from_col == to_col + 1 || to_col == from_col + 1
        } else if from_col == to_col {
            from_row == to_row + 1 || to_row == from_row + 1
        } else {
            false
        }
    }

    /// Decides the turn, color and geometry rules of an attack: a side is to
    /// move, the attacker is that side's piece, the colors differ, and the
    /// attacker either stands adjacent (any rank but the cannon) or jumps
    /// exactly two occupied slots along a shared row or column (the cannon).
    /// Rank dominance is checked separately when the attack is applied.
    pub fn is_valid_attack(&self, from: usize, to: usize) -> (r: bool)
        requires
            self.wf(),
        ensures
            r == valid_attack(self@.board, self@.turn, from as int, to as int),
    {
        if from >= BOARD_SLOTS || to >= BOARD_SLOTS {
            return false;
        }
        let to_move = match self.turn_state {
            TurnState::Undetermined => {
                return false;
            },
            TurnState::ToMove(c) => c,
        };
        let from_piece = match self.current_board[from] {
            None => {
                return false;
            },
            Some(p) => p,
        };
        let to_piece = match self.current_board[to] {
            None => {
                return false;
            },
            Some(p) => p,
        };
        if from_piece.color() != to_move {
            return false;
        }
        if from_piece.color() == to_piece.color() {
            return false;
        }
        let (from_row, from_col) = get_pos(from);
        let (to_row, to_col) = get_pos(to);
        if from_piece.rank() != Rank::Cannon {
            if from_row == to_row {
                from_col == to_col + 1 || to_col == from_col + 1
            } else if from_col == to_col {
                from_row == to_row + 1 || to_row == from_row + 1
            } else {
                false
            }
        } else {
            if from_row == to_row && from_col != to_col {
                let (lo, hi) = minmax(from_col, to_col);
                self.count_occupied_cols(from_row, lo, hi) == 2
            } else if from_col == to_col && from_row != to_row {
                let (lo, hi) = minmax(from_row, to_row);
                self.count_occupied_rows(from_col, lo, hi) == 2
            } else {
                false
            }
        }
    }

    /// Hands the turn to the other side.
    fn flip_turn(&mut self)
        requires
            old(self)@.turn is ToMove,
        ensures
            final(self)@.board == old(self)@.board,
            final(self)@.sel == old(self)@.sel,
            final(self)@.turn == spec_flip(old(self)@.turn),
    {
        match self.turn_state {
            TurnState::ToMove(c) => {
                self.turn_state = TurnState::ToMove(c.opposite());
            },
            TurnState::Undetermined => {
                proof {
                    assert(false);
                }
            },
        }
    }

    /// Leaves the opening phase: the very first reveal hands the turn to the
    /// opponent of the revealed color.
    fn flip_turn_first(&mut self, reveal_color: Color)
        ensures
            final(self)@.board == old(self)@.board,
            final(self)@.sel == old(self)@.sel,
            final(self)@.turn == TurnState::ToMove(opposite(reveal_color)),
    {
        self.turn_state = TurnState::ToMove(reveal_color.opposite());
    }

    /// Relocates the piece at `from` to the empty slot `to`, clears the
    /// selection and flips the turn.
    fn mv(&mut self, from: usize, to: usize)
        requires
            old(self).wf(),
            valid_move(old(self)@.board, old(self)@.turn, from as int, to as int),
        ensures
            final(self)@ == spec_relocate(old(self)@, from as int, to as int),
            final(self).wf(),
    {
        let p = self.current_board[from];
        self.current_board.set(to, p);
        self.current_board.set(from, None);
        self.selection_state = SelectionState::Empty;
        self.flip_turn();
    }

    /// Removes the defender at `to` from the game, relocates the attacker
    /// there, clears the selection and flips the turn.
    fn attack(&mut self, from: usize, to: usize)
        requires
            old(self).wf(),
            valid_attack(old(self)@.board, old(self)@.turn, from as int, to as int),
        ensures
            final(self)@ == spec_relocate(old(self)@, from as int, to as int),
            final(self).wf(),
    {
        let p = self.current_board[from];
        self.current_board.set(to, p);
        self.current_board.set(from, None);
        self.selection_state = SelectionState::Empty;
        self.flip_turn();
    }

    /// Applies one command, or rejects it leaving the state unchanged; the
    /// outcome is exactly `spec_update` of the old state.
    pub fn update(&mut self, msg: Msg) -> (r: Result<(), CommandError>)
        requires
            old(self).wf(),
        ensures
            final(self).wf(),
            (final(self)@, r) == spec_update(old(self)@, msg),
    {
        match msg {
            Msg::Reveal(pos) => {
                if pos >= BOARD_SLOTS {
                    return Err(CommandError::InvalidReveal);
                }
                match self.current_board[pos] {
                    None => Err(CommandError::InvalidReveal),
                    Some(p) => {
                        if p.is_revealed() {
                            Err(CommandError::InvalidReveal)
                        } else {
                            let mut q = p;
                            q.turn_face_up();
                            let c = q.color();
                            self.current_board.set(pos, Some(q));
                            match self.turn_state {
                                TurnState::Undetermined => self.flip_turn_first(c),
                                TurnState::ToMove(_) => self.flip_turn(),
                            }
                            Ok(())
                        }
                    },
                }
            },
            Msg::Select(pos) => {
                if pos >= BOARD_SLOTS {
                    return Err(CommandError::InvalidSelect);
                }
                match self.current_board[pos] {
                    None => Err(CommandError::InvalidSelect),
                    Some(p) => {
                        if p.is_revealed() {
                            self.selection_state = SelectionState::Armed(pos);
                            Ok(())
                        } else {
                            Err(CommandError::InvalidSelect)
                        }
                    },
                }
            },
            Msg::Unselect => {
                self.selection_state = SelectionState::Empty;
                Ok(())
            },
            Msg::Move(from, to) => {
                match self.turn_state {
                    TurnState::Undetermined => Err(CommandError::IllegalTurnQuery),
                    TurnState::ToMove(_) => {
                        if self.is_valid_move(from, to) {
                            self.mv(from, to);
                            Ok(())
                        } else {
                            Err(CommandError::InvalidMove)
                        }
                    },
                }
            },
            Msg::Attack(from, to) => {
                match self.turn_state {
                    TurnState::Undetermined => Err(CommandError::IllegalTurnQuery),
                    TurnState::ToMove(_) => {
                        if self.is_valid_attack(from, to) {
                            let fp = self.current_board[from].unwrap();
                            let tp = self.current_board[to].unwrap();
                            if fp.can_attack(&tp) {
                                self.attack(from, to);
                                Ok(())
                            } else {
                                Err(CommandError::InvalidAttack)
                            }
                        } else {
                            Err(CommandError::InvalidAttack)
                        }
                    },
                }
            },
        }
    }

    /// Decides, without mutating anything, which command a click on `pos`
    /// stands for; `None` is a click that does nothing.
    pub fn resolve(&self, pos: usize) -> (r: Option<Msg>)
        requires
            self.wf(),
            pos < 32,
        ensures
            r == spec_resolve(self@, pos as int),
    {
        match self.selection_state {
            SelectionState::Empty => {
                match self.current_board[pos] {
                    None => None,
                    Some(p) => {
                        if p.is_revealed() {
                            Some(Msg::Select(pos))
                        } else {
                            Some(Msg::Reveal(pos))
                        }
                    },
                }
            },
            SelectionState::Armed(cur) => {
                match self.current_board[pos] {
                    Some(p) => {
                        if !p.is_revealed() {
                            Some(Msg::Reveal(pos))
                        } else if pos == cur {
                            Some(Msg::Unselect)
                        } else if self.is_valid_attack(cur, pos) {
                            Some(Msg::Attack(cur, pos))
                        } else {
                            Some(Msg::Select(pos))
                        }
                    },
                    None => {
                        if self.is_valid_move(cur, pos) {
                            Some(Msg::Move(cur, pos))
                        } else {
                            Some(Msg::Unselect)
                        }
                    },
                }
            },
        }
    }

    /// The single inbound interaction: resolves the clicked cell to a
    /// command and applies it. Returns the applied command, `None` when the
    /// click stood for nothing, or the rejection, which leaves the state
    /// unchanged.
    pub fn on_cell_clicked(&mut self, pos: usize) -> (r: Result<Option<Msg>, CommandError>)
        requires
            old(self).wf(),
            pos < 32,
        ensures
            final(self).wf(),
            (final(self)@, r) == spec_click(old(self)@, pos as int),
    {
        match self.resolve(pos) {
            None => Ok(None),
            Some(msg) => match self.update(msg) {
                Ok(_) => Ok(Some(msg)),
                Err(e) => Err(e),
            },
        }
    }
}

} // verus!
