use chess::color::Color;
use chess::kinds::{Bishop, King, Knight, Pawn, Queen, Rook};
use chess::movement::Movement;
use chess::piece_type::{PieceKind, PieceType};
use chess::position::Position;

#[test]
fn bishop_test_string() {
    let bishop = Bishop {};
    assert_eq!(bishop.string(), "Bishop");
}

#[test]
fn bishop_test_is_king() {
    let bishop = Bishop {};
    assert_eq!(bishop.is_king(), false);
}

#[test]
fn king_test_string() {
    let king = King {};
    assert_eq!(king.string(), "King");
}

#[test]
fn king_test_is_king() {
    let king = King {};
    assert_eq!(king.is_king(), true);
}

#[test]
fn knight_test_string() {
    let knight = Knight {};
    assert_eq!(knight.string(), "Knight");
}

#[test]
fn knight_test_is_king() {
    let knight = Knight {};
    assert_eq!(knight.is_king(), false);
}

#[test]
fn pawn_test_string() {
    let pawn = Pawn {};
    assert_eq!(pawn.string(), "Pawn");
}

#[test]
fn pawn_test_is_king() {
    let pawn = Pawn {};
    assert_eq!(pawn.is_king(), false);
}

#[test]
fn queen_test_string() {
    let queen = Queen {};
    assert_eq!(queen.string(), "Queen");
}

#[test]
fn queen_test_is_king() {
    let queen = Queen {};
    assert_eq!(queen.is_king(), false);
}

#[test]
fn rook_test_string() {
    let rook = Rook {};
    assert_eq!(rook.string(), "Rook");
}

#[test]
fn rook_test_is_king() {
    let rook = Rook {};
    assert_eq!(rook.is_king(), false);
}

#[test]
fn test_get_result_for_diagonal_squares() {
    let bishop = Bishop {};
    let king = King {};
    let pawn = Pawn {};
    let queen = Queen {};

    let p1 = Position { x: 0, y: 0 };
    let p2 = Position { x: 1, y: 1 };

    assert!(bishop.get_result_for_diagonal_squares(false, &p1, &p2));
    assert!(king.get_result_for_diagonal_squares(false, &p1, &p2));
    assert!(pawn.get_result_for_diagonal_squares(false, &p1, &p2));
    assert!(queen.get_result_for_diagonal_squares(false, &p1, &p2));
}

#[test]
fn test_get_result_for_cross_squares() {
    let king = King {};
    let queen = Queen {};
    let rook = Rook {};

    let p1 = Position { x: 0, y: 0 };
    let p2 = Position { x: 1, y: 0 };

    assert!(king.get_result_for_cross_squares(false, &p1, &p2));
    assert!(queen.get_result_for_cross_squares(false, &p1, &p2));
    assert!(rook.get_result_for_cross_squares(false, &p1, &p2));
}

#[test]
fn test_get_result_for_diagonal_squares_down() {
    let pawn = Pawn {};

    let n = 1..2;

    assert!(pawn.get_result_for_diagonal_squares_down(false, 1, 1, 0, 0, &n));
    assert!(pawn.get_result_for_diagonal_squares_down(false, 1, 1, 2, 0, &n));
}

#[test]
fn test_get_result_for_diagonal_squares_up() {
    let pawn = Pawn {};

    let n = 1..2;

    assert!(pawn.get_result_for_diagonal_squares_up(false, 1, 1, 0, 2, &n));
    assert!(pawn.get_result_for_diagonal_squares_up(false, 1, 1, 2, 2, &n));
}

#[test]
fn test_get_position_variables() {
    let pawn = Pawn {};
    let bishop = Bishop {};
    let king = King {};
    let knight = Knight {};
    let queen = Queen {};
    let rook = Rook {};

    let p1 = Position { x: 0, y: 0 };
    let p2 = Position { x: 1, y: 1 };

    assert_eq!(pawn.get_position_variables(&p1, &p2), (0, 0, 1, 1));
    assert_eq!(bishop.get_position_variables(&p1, &p2), (0, 0, 1, 1));
    assert_eq!(king.get_position_variables(&p1, &p2), (0, 0, 1, 1));
    assert_eq!(knight.get_position_variables(&p1, &p2), (0, 0, 1, 1));
    assert_eq!(queen.get_position_variables(&p1, &p2), (0, 0, 1, 1));
    assert_eq!(rook.get_position_variables(&p1, &p2), (0, 0, 1, 1));
}

// A Pawn, like a King, steps a single square.
#[test]
fn test_get_range() {
    let bishop = Bishop {};
    let king = King {};
    let knight = Knight {};
    let pawn = Pawn {};
    let queen = Queen {};
    let rook = Rook {};

    assert_eq!(bishop.get_range(), 1..8);
    assert_eq!(king.get_range(), 1..2);
    assert_eq!(knight.get_range(), 1..8);
    assert_eq!(pawn.get_range(), 1..2);
    assert_eq!(queen.get_range(), 1..8);
    assert_eq!(rook.get_range(), 1..8);
}

#[test]
fn test_new_position() {
    let position = Position { x: 1, y: 2 };
    assert_eq!(position.x, 1);
    assert_eq!(position.y, 2);
}

#[test]
fn test_get_pair() {
    let position = Position { x: 1, y: 2 };
    assert_eq!(position.get_pair(), [1, 2]);
}

#[test]
fn movement_test_white_wins() {
    let movement = Movement {
        piece_color: &Color::White,
        did_win: true,
    };
    assert!(movement.white_wins());
}

#[test]
fn movement_test_black_wins() {
    let movement = Movement {
        piece_color: &Color::Black,
        did_win: true,
    };
    assert!(movement.black_wins());
}

#[test]
fn test_white_does_not_win() {
    let movement = Movement {
        piece_color: &Color::White,
        did_win: false,
    };
    assert!(!movement.white_wins());
}

#[test]
fn test_black_does_not_win() {
    let movement = Movement {
        piece_color: &Color::Black,
        did_win: false,
    };
    assert!(!movement.black_wins());
}

#[test]
fn white_movement_is_no_black_win() {
    let movement = Movement {
        piece_color: &Color::White,
        did_win: true,
    };
    assert!(!movement.black_wins());
}

#[test]
fn kind_from_letter_ignores_case() {
    assert_eq!(PieceKind::from_letter('R'), Some(PieceKind::King));
    assert_eq!(PieceKind::from_letter('d'), Some(PieceKind::Queen));
    assert_eq!(PieceKind::from_letter('A'), Some(PieceKind::Bishop));
    assert_eq!(PieceKind::from_letter('c'), Some(PieceKind::Knight));
    assert_eq!(PieceKind::from_letter('T'), Some(PieceKind::Rook));
    assert_eq!(PieceKind::from_letter('p'), Some(PieceKind::Pawn));
    assert_eq!(PieceKind::from_letter('K'), None);
    assert_eq!(PieceKind::from_letter('_'), None);
}

#[test]
fn kind_names_and_ranges() {
    assert_eq!(PieceKind::Knight.string(), "Knight");
    assert!(PieceKind::King.is_king());
    assert!(!PieceKind::Queen.is_king());
    assert_eq!(PieceKind::Pawn.get_range(), 1..2);
    assert_eq!(PieceKind::Rook.get_range(), 1..8);
}

#[test]
fn cross_squares_respect_reach() {
    let king = King {};
    let rook = Rook {};
    let p1 = Position { x: 0, y: 0 };
    let far = Position { x: 0, y: 7 };
    assert!(!king.get_result_for_cross_squares(false, &p1, &far));
    assert!(rook.get_result_for_cross_squares(false, &p1, &far));
    assert!(!rook.get_result_for_cross_squares(false, &p1, &p1));
    assert!(rook.get_result_for_cross_squares(true, &p1, &p1));
}

#[test]
fn diagonal_squares_respect_reach() {
    let king = King {};
    let bishop = Bishop {};
    let p1 = Position { x: 0, y: 7 };
    let far = Position { x: 7, y: 0 };
    assert!(!king.get_result_for_diagonal_squares(false, &p1, &far));
    assert!(bishop.get_result_for_diagonal_squares(false, &p1, &far));
    assert!(!bishop.get_result_for_diagonal_squares(false, &p1, &Position { x: 1, y: 7 }));
}

#[test]
fn diagonal_up_is_not_down() {
    let pawn = Pawn {};
    let n = 1..2;
    assert!(!pawn.get_result_for_diagonal_squares_up(false, 1, 1, 0, 0, &n));
    assert!(!pawn.get_result_for_diagonal_squares_down(false, 1, 1, 0, 2, &n));
    assert!(!pawn.get_result_for_diagonal_squares_up(false, 1, 1, 1, 2, &n));
}
