use chess::checks::{
    pieces_checked_color, pieces_pass_checks, result_is_valid, row_size_is_valid,
    square_has_piece,
};
use chess::chess_error::ChessError;
use chess::piece::Piece;
use chess::piece_list::PieceList;

#[test]
fn test_square_has_piece_true() {
    assert!(square_has_piece(&"k"));
}

#[test]
fn test_square_has_piece_false() {
    assert!(!square_has_piece(&"_"));
}

#[test]
fn test_result_is_valid_true() {
    let mut piece_list = PieceList::init();
    let piece1 = Piece::new(&"R", 1, 2).unwrap();
    let piece2 = Piece::new(&"r", 2, 1).unwrap();

    piece_list.push(piece1);
    piece_list.push(piece2);

    let res = result_is_valid(-1, &piece_list);

    assert!(res.is_ok());
}

#[test]
fn test_result_is_valid_false() {
    let mut piece_list = PieceList::init();
    let piece1 = Piece::new(&"R", 1, 2).unwrap();
    let piece2 = Piece::new(&"r", 2, 1).unwrap();
    let piece3 = Piece::new(&"t", 1, 1).unwrap();

    piece_list.push(piece1);
    piece_list.push(piece2);
    piece_list.push(piece3);

    let res = result_is_valid(-1, &piece_list);

    assert!(res.is_err());
}

#[test]
fn test_row_size_is_valid_true() {
    let res = row_size_is_valid(-1);

    assert!(res);
}

#[test]
fn test_row_size_is_valid_false() {
    let res = row_size_is_valid(-10);

    assert!(!res);
}

#[test]
fn test_pieces_checked_color_true() {
    let mut piece_list = PieceList::init();
    let piece1 = Piece::new(&"R", 1, 2).unwrap();
    let piece2 = Piece::new(&"r", 2, 1).unwrap();

    piece_list.push(piece1);
    piece_list.push(piece2);

    let res = pieces_checked_color(&piece_list);

    assert!(res);
}

#[test]
fn test_pieces_checked_color_false() {
    let mut piece_list = PieceList::init();
    let piece1 = Piece::new(&"R", 1, 2).unwrap();
    let piece2 = Piece::new(&"D", 2, 1).unwrap();

    piece_list.push(piece1);
    piece_list.push(piece2);

    let res = pieces_checked_color(&piece_list);
    assert!(!res);
}

#[test]
fn test_pieces_pass_checks_true() {
    let mut piece_list = PieceList::init();
    let piece1 = Piece::new(&"R", 1, 2).unwrap();
    let piece2 = Piece::new(&"d", 2, 1).unwrap();

    piece_list.push(piece1);
    piece_list.push(piece2);

    let res = pieces_pass_checks(&piece_list);

    assert!(res.is_ok());
}

#[test]
fn test_pieces_pass_checks_false_color() {
    let mut piece_list = PieceList::init();
    let piece1 = Piece::new(&"R", 1, 2).unwrap();
    let piece2 = Piece::new(&"D", 2, 1).unwrap();

    piece_list.push(piece1);
    piece_list.push(piece2);

    let res = pieces_pass_checks(&piece_list);
    assert!(res.is_err());
}

#[test]
fn test_pieces_pass_checks_false_number() {
    let mut piece_list = PieceList::init();
    let piece1 = Piece::new(&"R", 1, 2).unwrap();
    let piece2 = Piece::new(&"d", 2, 1).unwrap();
    let piece3 = Piece::new(&"t", 4, 1).unwrap();

    piece_list.push(piece1);
    piece_list.push(piece2);
    piece_list.push(piece3);

    let res = pieces_pass_checks(&piece_list);
    assert!(res.is_err());
}

#[test]
fn checks_name_each_error() {
    let mut same = PieceList::init();
    same.push(Piece::new("R", 1, 2).unwrap());
    same.push(Piece::new("D", 2, 1).unwrap());
    assert_eq!(pieces_pass_checks(&same), Err(ChessError::SameColorPieces));
    assert_eq!(result_is_valid(-1, &same), Err(ChessError::SameColorPieces));
    assert_eq!(result_is_valid(0, &same), Err(ChessError::MalformedRowSize));
    assert_eq!(pieces_pass_checks(&PieceList::init()), Err(ChessError::WrongPieceCount));
    let mut one = PieceList::init();
    one.push(Piece::new("r", 0, 0).unwrap());
    assert_eq!(pieces_pass_checks(&one), Err(ChessError::WrongPieceCount));
}

#[test]
fn square_tokens_other_than_underscore_hold_pieces() {
    assert!(square_has_piece(""));
    assert!(square_has_piece("__"));
    assert!(square_has_piece("x"));
    assert!(!square_has_piece("_"));
}
