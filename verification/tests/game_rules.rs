use banqi::game::Color;
use banqi::game::CommandError;
use banqi::game::Game;
use banqi::game::Msg;
use banqi::game::SelectionState;
use banqi::game::TurnState;
use banqi::piece::Piece;
use banqi::rank::Rank;

fn empty_board() -> Vec<Option<Piece>> {
    let mut v: Vec<Option<Piece>> = Vec::new();
    for _ in 0..32 {
        v.push(None);
    }
    v
}

fn face_up(rank: Rank, color: Color) -> Piece {
    let mut p = Piece::new(rank, color);
    p.turn_face_up();
    p
}

fn snapshot(g: &Game) -> Vec<Option<Piece>> {
    let mut v: Vec<Option<Piece>> = Vec::new();
    for i in 0..32 {
        v.push(g.piece_at(i));
    }
    v
}

#[test]
fn new_board_composition() {
    let g = Game::new();
    assert!(matches!(g.turn_state(), TurnState::Undetermined));
    assert!(matches!(g.selection_state(), SelectionState::Empty));
    let board = snapshot(&g);
    assert_eq!(board.len(), 32);
    for color in [Color::Black, Color::Red] {
        let count = |r: Rank| {
            board
                .iter()
                .filter(|s| match s {
                    Some(p) => p.rank() == r && p.color() == color && !p.is_revealed(),
                    None => false,
                })
                .count()
        };
        assert_eq!(count(Rank::General), 1);
        assert_eq!(count(Rank::Advisor), 2);
        assert_eq!(count(Rank::Elephant), 2);
        assert_eq!(count(Rank::Chariot), 2);
        assert_eq!(count(Rank::Horse), 2);
        assert_eq!(count(Rank::Cannon), 2);
        assert_eq!(count(Rank::Soldier), 5);
    }
}

#[test]
fn move_succeeds_only_to_adjacent_empty_cell() {
    let mut board = empty_board();
    board[9] = Some(face_up(Rank::Chariot, Color::Red));
    board[11] = Some(face_up(Rank::Horse, Color::Red));
    let mut g = Game::from_parts(board, TurnState::ToMove(Color::Red), SelectionState::Empty);

    // Not adjacent: two columns away.
    assert_eq!(g.update(Msg::Move(9, 11)), Err(CommandError::InvalidMove));
    // Not adjacent: diagonal.
    assert_eq!(g.update(Msg::Move(9, 2)), Err(CommandError::InvalidMove));
    assert_eq!(g.update(Msg::Move(9, 18)), Err(CommandError::InvalidMove));
    // Occupied destination.
    assert!(!g.is_valid_move(9, 11));
    // Adjacent, empty: succeeds, piece is carried over unchanged.
    let moved = g.piece_at(9).unwrap();
    assert_eq!(g.update(Msg::Move(9, 10)), Ok(()));
    assert!(g.piece_at(9).is_none());
    assert_eq!(g.piece_at(10), Some(moved));
    assert!(matches!(g.turn_state(), TurnState::ToMove(Color::Black)));
    assert!(matches!(g.selection_state(), SelectionState::Empty));
}

#[test]
fn move_rejects_wrong_color_and_undetermined_turn() {
    let mut board = empty_board();
    board[0] = Some(face_up(Rank::Horse, Color::Black));
    let mut g = Game::from_parts(
        board.clone(),
        TurnState::ToMove(Color::Red),
        SelectionState::Empty,
    );
    assert_eq!(g.update(Msg::Move(0, 1)), Err(CommandError::InvalidMove));

    let mut g2 = Game::from_parts(board, TurnState::Undetermined, SelectionState::Empty);
    assert_eq!(
        g2.update(Msg::Move(0, 1)),
        Err(CommandError::IllegalTurnQuery)
    );
    assert_eq!(
        g2.update(Msg::Attack(0, 1)),
        Err(CommandError::IllegalTurnQuery)
    );
}

#[test]
fn non_cannon_attack_needs_adjacency_color_and_dominance() {
    let mut board = empty_board();
    board[9] = Some(face_up(Rank::Chariot, Color::Red));
    board[10] = Some(face_up(Rank::Horse, Color::Black));
    board[12] = Some(face_up(Rank::Advisor, Color::Black));
    board[17] = Some(face_up(Rank::Horse, Color::Red));
    let mut g = Game::from_parts(board, TurnState::ToMove(Color::Red), SelectionState::Empty);

    // Same color: rejected.
    assert_eq!(g.update(Msg::Attack(9, 17)), Err(CommandError::InvalidAttack));
    // Not adjacent: rejected.
    assert_eq!(g.update(Msg::Attack(9, 12)), Err(CommandError::InvalidAttack));
    // Dominance fails: a horse cannot capture an advisor even when adjacent.
    let mut board2 = empty_board();
    board2[9] = Some(face_up(Rank::Horse, Color::Red));
    board2[10] = Some(face_up(Rank::Advisor, Color::Black));
    let mut g2 = Game::from_parts(board2, TurnState::ToMove(Color::Red), SelectionState::Empty);
    assert_eq!(
        g2.update(Msg::Attack(9, 10)),
        Err(CommandError::InvalidAttack)
    );
    // Adjacent, opposite color, dominance holds: the defender is gone and the
    // attacker relocates.
    let attacker = g.piece_at(9).unwrap();
    assert_eq!(g.update(Msg::Attack(9, 10)), Ok(()));
    assert!(g.piece_at(9).is_none());
    assert_eq!(g.piece_at(10), Some(attacker));
    assert!(matches!(g.turn_state(), TurnState::ToMove(Color::Black)));
}

#[test]
fn cannon_attack_needs_exactly_two_screens() {
    // Row 1 is slots 8..16. Cannon at 8, targets and screens to its right.
    let mut board = empty_board();
    board[8] = Some(face_up(Rank::Cannon, Color::Red));
    board[10] = Some(face_up(Rank::Soldier, Color::Black));
    board[11] = Some(face_up(Rank::Soldier, Color::Red));
    board[13] = Some(face_up(Rank::General, Color::Black));
    let mut g = Game::from_parts(
        board.clone(),
        TurnState::ToMove(Color::Red),
        SelectionState::Empty,
    );

    // Exactly two occupied slots (10 and 11) between 8 and 13, of mixed
    // colors: the capture succeeds.
    let cannon = g.piece_at(8).unwrap();
    assert_eq!(g.update(Msg::Attack(8, 13)), Ok(()));
    assert!(g.piece_at(8).is_none());
    assert_eq!(g.piece_at(13), Some(cannon));

    // One screen only: rejected.
    let mut board2 = board.clone();
    board2[11] = None;
    let mut g2 = Game::from_parts(board2, TurnState::ToMove(Color::Red), SelectionState::Empty);
    assert_eq!(
        g2.update(Msg::Attack(8, 13)),
        Err(CommandError::InvalidAttack)
    );

    // Three screens: rejected.
    let mut board3 = board.clone();
    board3[12] = Some(face_up(Rank::Horse, Color::Black));
    let mut g3 = Game::from_parts(board3, TurnState::ToMove(Color::Red), SelectionState::Empty);
    assert_eq!(
        g3.update(Msg::Attack(8, 13)),
        Err(CommandError::InvalidAttack)
    );

    // Adjacent target: zero screens, rejected for a cannon.
    let mut board4 = empty_board();
    board4[8] = Some(face_up(Rank::Cannon, Color::Red));
    board4[9] = Some(face_up(Rank::Soldier, Color::Black));
    let mut g4 = Game::from_parts(board4, TurnState::ToMove(Color::Red), SelectionState::Empty);
    assert_eq!(
        g4.update(Msg::Attack(8, 9)),
        Err(CommandError::InvalidAttack)
    );
}

#[test]
fn cannon_attack_works_along_a_column() {
    // Column 2: slots 2, 10, 18, 26.
    let mut board = empty_board();
    board[2] = Some(face_up(Rank::Cannon, Color::Black));
    board[10] = Some(face_up(Rank::Soldier, Color::Red));
    board[18] = Some(face_up(Rank::Soldier, Color::Black));
    board[26] = Some(face_up(Rank::General, Color::Red));
    let mut g = Game::from_parts(board, TurnState::ToMove(Color::Black), SelectionState::Empty);
    let cannon = g.piece_at(2).unwrap();
    assert_eq!(g.update(Msg::Attack(2, 26)), Ok(()));
    assert!(g.piece_at(2).is_none());
    assert_eq!(g.piece_at(26), Some(cannon));
    assert!(matches!(g.turn_state(), TurnState::ToMove(Color::Red)));
}

#[test]
fn first_reveal_hands_turn_to_opponent() {
    let mut board = empty_board();
    board[3] = Some(Piece::new(Rank::Horse, Color::Black));
    board[4] = Some(Piece::new(Rank::Elephant, Color::Red));
    let mut g = Game::from_parts(
        board.clone(),
        TurnState::Undetermined,
        SelectionState::Empty,
    );
    assert_eq!(g.update(Msg::Reveal(3)), Ok(()));
    assert!(matches!(g.turn_state(), TurnState::ToMove(Color::Red)));
    assert!(g.piece_at(3).unwrap().is_revealed());
    // A later reveal flips the mover, whatever color comes up.
    assert_eq!(g.update(Msg::Reveal(4)), Ok(()));
    assert!(matches!(g.turn_state(), TurnState::ToMove(Color::Black)));

    let mut g2 = Game::from_parts(board, TurnState::Undetermined, SelectionState::Empty);
    assert_eq!(g2.update(Msg::Reveal(4)), Ok(()));
    assert!(matches!(g2.turn_state(), TurnState::ToMove(Color::Black)));
}

#[test]
fn reveal_rejects_empty_and_face_up_targets() {
    let mut board = empty_board();
    board[3] = Some(face_up(Rank::Horse, Color::Black));
    let mut g = Game::from_parts(board, TurnState::ToMove(Color::Red), SelectionState::Empty);
    assert_eq!(g.update(Msg::Reveal(0)), Err(CommandError::InvalidReveal));
    assert_eq!(g.update(Msg::Reveal(3)), Err(CommandError::InvalidReveal));
    assert!(matches!(g.turn_state(), TurnState::ToMove(Color::Red)));
}

#[test]
fn select_rejects_empty_and_face_down_targets() {
    let mut board = empty_board();
    board[3] = Some(Piece::new(Rank::Horse, Color::Black));
    let mut g = Game::from_parts(board, TurnState::ToMove(Color::Black), SelectionState::Empty);
    assert_eq!(g.update(Msg::Select(0)), Err(CommandError::InvalidSelect));
    assert_eq!(g.update(Msg::Select(3)), Err(CommandError::InvalidSelect));
    assert!(matches!(g.selection_state(), SelectionState::Empty));
}

#[test]
fn clicking_armed_cell_twice_returns_to_empty_selection() {
    let mut board = empty_board();
    board[7] = Some(face_up(Rank::Advisor, Color::Red));
    let mut g = Game::from_parts(board, TurnState::ToMove(Color::Red), SelectionState::Empty);
    let before = snapshot(&g);
    assert_eq!(g.on_cell_clicked(7), Ok(Some(Msg::Select(7))));
    assert!(matches!(g.selection_state(), SelectionState::Armed(7)));
    assert_eq!(g.on_cell_clicked(7), Ok(Some(Msg::Unselect)));
    assert!(matches!(g.selection_state(), SelectionState::Empty));
    assert_eq!(snapshot(&g), before);
    assert!(matches!(g.turn_state(), TurnState::ToMove(Color::Red)));
}

#[test]
fn click_on_empty_cell_with_no_selection_does_nothing() {
    let board = empty_board();
    let mut g = Game::from_parts(board, TurnState::Undetermined, SelectionState::Empty);
    assert_eq!(g.on_cell_clicked(12), Ok(None));
    assert!(matches!(g.selection_state(), SelectionState::Empty));
}

#[test]
fn clicking_face_down_piece_keeps_armed_selection() {
    // Revealing a third piece while another cell is armed leaves the
    // selection where it was.
    let mut board = empty_board();
    board[0] = Some(face_up(Rank::Horse, Color::Red));
    board[20] = Some(Piece::new(Rank::Soldier, Color::Black));
    let mut g = Game::from_parts(board, TurnState::ToMove(Color::Red), SelectionState::Empty);
    assert_eq!(g.on_cell_clicked(0), Ok(Some(Msg::Select(0))));
    assert_eq!(g.on_cell_clicked(20), Ok(Some(Msg::Reveal(20))));
    assert!(matches!(g.selection_state(), SelectionState::Armed(0)));
    assert!(g.piece_at(20).unwrap().is_revealed());
}

#[test]
fn invalid_attack_click_rearms_on_the_new_piece() {
    // Clicking a revealed piece that cannot be attacked from the armed cell
    // re-arms the selection on the clicked piece instead of rejecting.
    let mut board = empty_board();
    board[0] = Some(face_up(Rank::Horse, Color::Red));
    board[3] = Some(face_up(Rank::Soldier, Color::Black));
    let mut g = Game::from_parts(board, TurnState::ToMove(Color::Red), SelectionState::Empty);
    assert_eq!(g.on_cell_clicked(0), Ok(Some(Msg::Select(0))));
    assert_eq!(g.on_cell_clicked(3), Ok(Some(Msg::Select(3))));
    assert!(matches!(g.selection_state(), SelectionState::Armed(3)));
}

#[test]
fn invalid_move_click_clears_the_selection() {
    let mut board = empty_board();
    board[0] = Some(face_up(Rank::Horse, Color::Red));
    let mut g = Game::from_parts(board, TurnState::ToMove(Color::Red), SelectionState::Empty);
    assert_eq!(g.on_cell_clicked(0), Ok(Some(Msg::Select(0))));
    // Slot 9 is diagonal from 0: not a legal move target.
    assert_eq!(g.on_cell_clicked(9), Ok(Some(Msg::Unselect)));
    assert!(matches!(g.selection_state(), SelectionState::Empty));
}

#[test]
fn seeded_scenario_reveal_then_rejected_then_capture() {
    // A hand-seeded board: a face-down black soldier at 5, a revealed red
    // general at 13, a revealed red chariot at 6.
    let mut board = empty_board();
    board[5] = Some(Piece::new(Rank::Soldier, Color::Black));
    board[13] = Some(face_up(Rank::General, Color::Red));
    board[6] = Some(face_up(Rank::Chariot, Color::Red));
    let mut g = Game::from_parts(board, TurnState::Undetermined, SelectionState::Empty);

    // Revealing the black soldier puts red to move.
    assert_eq!(g.on_cell_clicked(5), Ok(Some(Msg::Reveal(5))));
    assert!(matches!(g.turn_state(), TurnState::ToMove(Color::Red)));

    // The general's attack on the soldier is rejected and the board is
    // unchanged.
    let before = snapshot(&g);
    assert_eq!(g.update(Msg::Attack(13, 5)), Err(CommandError::InvalidAttack));
    assert_eq!(snapshot(&g), before);

    // Selecting the adjacent red chariot and attacking the soldier succeeds:
    // the soldier is removed from the game for good, the attacker occupies
    // slot 5, and black is to move.
    let chariot = g.piece_at(6).unwrap();
    assert_eq!(g.on_cell_clicked(6), Ok(Some(Msg::Select(6))));
    assert_eq!(g.on_cell_clicked(5), Ok(Some(Msg::Attack(6, 5))));
    assert_eq!(g.piece_at(5), Some(chariot));
    assert!(g.piece_at(6).is_none());
    for i in 0..32 {
        let slot = g.piece_at(i);
        if let Some(p) = slot {
            assert!(!(p.color() == Color::Black && p.rank() == Rank::Soldier));
        }
    }
    assert!(matches!(g.turn_state(), TurnState::ToMove(Color::Black)));
    assert!(matches!(g.selection_state(), SelectionState::Empty));
}

#[test]
fn resolver_reveals_face_down_piece_with_no_selection() {
    let mut board = empty_board();
    board[2] = Some(Piece::new(Rank::Cannon, Color::Red));
    let g = Game::from_parts(board, TurnState::Undetermined, SelectionState::Empty);
    assert_eq!(g.resolve(2), Some(Msg::Reveal(2)));
    assert_eq!(g.resolve(3), None);
}

#[test]
fn rejected_commands_leave_the_state_unchanged() {
    let mut board = empty_board();
    board[9] = Some(face_up(Rank::Soldier, Color::Red));
    board[10] = Some(face_up(Rank::Advisor, Color::Black));
    let mut g = Game::from_parts(board, TurnState::ToMove(Color::Red), SelectionState::Empty);
    let before = snapshot(&g);
    // A soldier cannot capture an advisor.
    assert_eq!(g.update(Msg::Attack(9, 10)), Err(CommandError::InvalidAttack));
    assert_eq!(snapshot(&g), before);
    assert!(matches!(g.turn_state(), TurnState::ToMove(Color::Red)));
    assert!(matches!(g.selection_state(), SelectionState::Empty));
}
