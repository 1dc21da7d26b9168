use go_board::board::{Board, GameError, IllegalMovePolicy, Move, SIDE};
use go_board::piece::Piece;

fn grid_of(b: &Board) -> Vec<Piece> {
    let mut cells = Vec::new();
    for r in 0..SIDE {
        for c in 0..SIDE {
            cells.push(b.cell_at(r, c).unwrap());
        }
    }
    cells
}

fn stone_count(b: &Board) -> usize {
    grid_of(b).into_iter().filter(|p| *p != Piece::Empty).count()
}

#[test]
fn new_board_is_empty_with_black_to_move() {
    let b = Board::new();
    assert_eq!(b.cell_at(0, 0), Ok(Piece::Empty));
    assert_eq!(b.next_to_move(), Piece::Black);
    assert!(grid_of(&b).iter().all(|p| *p == Piece::Empty));
}

#[test]
fn default_matches_new() {
    let b = Board::default();
    assert_eq!(b.next_to_move(), Piece::Black);
    assert_eq!(stone_count(&b), 0);
}

#[test]
fn first_placement_is_black() {
    let mut b = Board::new();
    assert_eq!(b.make_move(&Move::Place(0, 0)), Ok(()));
    assert_eq!(b.cell_at(0, 0), Ok(Piece::Black));
    assert_eq!(b.next_to_move(), Piece::White);
}

#[test]
fn placing_on_occupied_point_is_absorbed() {
    let mut b = Board::new();
    b.make_move(&Move::Place(0, 0)).unwrap();
    let before = grid_of(&b);
    assert!(!b.is_valid_move(&Move::Place(0, 0)));
    assert_eq!(b.make_move(&Move::Place(0, 0)), Ok(()));
    assert_eq!(b.cell_at(0, 0), Ok(Piece::Black));
    assert_eq!(grid_of(&b), before);
    assert_eq!(b.next_to_move(), Piece::Black);
}

#[test]
fn pass_keeps_grid_and_toggles_turn() {
    let mut b = Board::new();
    b.make_move(&Move::Place(0, 0)).unwrap();
    b.make_move(&Move::Place(0, 0)).unwrap();
    let before = grid_of(&b);
    assert!(b.is_valid_move(&Move::Pass));
    assert_eq!(b.make_move(&Move::Pass), Ok(()));
    assert_eq!(grid_of(&b), before);
    assert_eq!(b.next_to_move(), Piece::White);
}

#[test]
fn far_corner_is_legal() {
    let mut b = Board::new();
    assert!(b.is_valid_move(&Move::Place(8, 8)));
    assert_eq!(b.make_move(&Move::Place(8, 8)), Ok(()));
    assert_eq!(b.cell_at(8, 8), Ok(Piece::Black));
}

#[test]
fn row_nine_is_out_of_range() {
    let mut b = Board::new();
    assert!(!b.is_valid_move(&Move::Place(9, 0)));
    assert_eq!(b.make_move(&Move::Place(9, 0)), Err(GameError::OutOfRange));
    assert_eq!(stone_count(&b), 0);
    assert_eq!(b.next_to_move(), Piece::Black);
}

#[test]
fn column_nine_is_out_of_range() {
    let mut b = Board::new();
    assert!(!b.is_valid_move(&Move::Place(0, 9)));
    assert_eq!(b.make_move(&Move::Place(0, 9)), Err(GameError::OutOfRange));
    assert_eq!(stone_count(&b), 0);
    assert_eq!(b.next_to_move(), Piece::Black);
}

#[test]
fn cell_lookup_out_of_range() {
    let b = Board::new();
    assert_eq!(b.cell_at(9, 0), Err(GameError::OutOfRange));
    assert_eq!(b.cell_at(0, 9), Err(GameError::OutOfRange));
    assert_eq!(b.cell_at(8, 8), Ok(Piece::Empty));
}

#[test]
fn second_stone_is_white() {
    let mut b = Board::new();
    b.make_move(&Move::Place(3, 3)).unwrap();
    b.make_move(&Move::Place(4, 5)).unwrap();
    assert_eq!(b.cell_at(3, 3), Ok(Piece::Black));
    assert_eq!(b.cell_at(4, 5), Ok(Piece::White));
    assert_eq!(b.cell_at(5, 4), Ok(Piece::Empty));
    assert_eq!(b.next_to_move(), Piece::Black);
}

#[test]
fn reject_policy_reports_and_keeps_board() {
    let mut b = Board::new();
    b.make_move(&Move::Place(2, 2)).unwrap();
    let before = grid_of(&b);
    assert_eq!(
        b.make_move_under(&Move::Place(2, 2), IllegalMovePolicy::Reject),
        Err(GameError::IllegalMove)
    );
    assert_eq!(grid_of(&b), before);
    assert_eq!(b.next_to_move(), Piece::White);
    assert_eq!(b.make_move_under(&Move::Place(2, 3), IllegalMovePolicy::Reject), Ok(()));
    assert_eq!(b.cell_at(2, 3), Ok(Piece::White));
    assert_eq!(
        b.make_move_under(&Move::Place(0, 9), IllegalMovePolicy::Reject),
        Err(GameError::OutOfRange)
    );
}

#[test]
fn absorb_policy_matches_make_move() {
    let mut b = Board::new();
    b.make_move(&Move::Place(2, 2)).unwrap();
    assert_eq!(b.make_move_under(&Move::Place(2, 2), IllegalMovePolicy::Absorb), Ok(()));
    assert_eq!(b.cell_at(2, 2), Ok(Piece::Black));
    assert_eq!(b.next_to_move(), Piece::Black);
}

fn mixed_moves() -> Vec<Move> {
    vec![
        Move::Place(0, 0),
        Move::Place(0, 0),
        Move::Pass,
        Move::Place(4, 4),
        Move::Place(4, 4),
        Move::Place(8, 0),
        Move::Pass,
        Move::Pass,
        Move::Place(0, 8),
        Move::Place(8, 0),
    ]
}

#[test]
fn turn_never_empty_and_alternates() {
    let mut b = Board::new();
    for (n, mv) in mixed_moves().iter().enumerate() {
        b.make_move(mv).unwrap();
        let expected = if (n + 1) % 2 == 0 { Piece::Black } else { Piece::White };
        assert_ne!(b.next_to_move(), Piece::Empty);
        assert_eq!(b.next_to_move(), expected);
    }
}

#[test]
fn stone_count_grows_by_at_most_one() {
    let mut b = Board::new();
    let mut previous = 0;
    for (n, mv) in mixed_moves().iter().enumerate() {
        b.make_move(mv).unwrap();
        let count = stone_count(&b);
        assert!(count >= previous);
        assert!(count <= previous + 1);
        assert!(count <= n + 1);
        previous = count;
    }
    assert_eq!(previous, 4);
}

#[test]
fn illegal_placement_keeps_every_point() {
    let mut b = Board::new();
    b.make_move(&Move::Place(1, 1)).unwrap();
    b.make_move(&Move::Place(1, 2)).unwrap();
    let before = grid_of(&b);
    let turn = b.next_to_move();
    b.make_move(&Move::Place(1, 2)).unwrap();
    assert_eq!(grid_of(&b), before);
    assert_ne!(b.next_to_move(), turn);
}
