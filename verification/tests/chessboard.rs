use szachus::chessboard::ChessBoard;
use szachus::piece::{Piece, PieceType};
use szachus::piece_color::PieceColor;
use szachus::position::Position;
use szachus::rule_violation::RuleViolation;

fn piece(piece_type: PieceType, color: PieceColor, column: i8, row: i8) -> Piece {
    Piece { piece_type, color, position: Position::new(column, row), times_moved: 0 }
}

fn board_of(pieces: Vec<Piece>) -> ChessBoard {
    let board = ChessBoard { pieces };
    assert!(board.is_well_formed());
    board
}

fn sorted(board: &ChessBoard) -> Vec<(i8, i8, PieceType, PieceColor, u8)> {
    let mut squares: Vec<(i8, i8, PieceType, PieceColor, u8)> = board
        .pieces
        .iter()
        .map(|p| (p.position.column, p.position.row, p.piece_type, p.color, p.times_moved))
        .collect();
    squares.sort_by_key(|s| (s.0, s.1));
    squares
}

#[test]
fn new_board_has_the_starting_layout() {
    let board = ChessBoard::new();
    assert_eq!(board.pieces.len(), 32);
    assert!(board.is_well_formed());
    let back = [
        PieceType::Rook,
        PieceType::Knight,
        PieceType::Bishop,
        PieceType::Queen,
        PieceType::King,
        PieceType::Bishop,
        PieceType::Knight,
        PieceType::Rook,
    ];
    for column in 0..8i8 {
        let kind = back[column as usize];
        assert_eq!(
            board.find_piece_at(Position::new(column, 0)),
            Some(&piece(kind, PieceColor::White, column, 0))
        );
        assert_eq!(
            board.find_piece_at(Position::new(column, 1)),
            Some(&piece(PieceType::Pawn, PieceColor::White, column, 1))
        );
        assert_eq!(
            board.find_piece_at(Position::new(column, 6)),
            Some(&piece(PieceType::Pawn, PieceColor::Black, column, 6))
        );
        assert_eq!(
            board.find_piece_at(Position::new(column, 7)),
            Some(&piece(kind, PieceColor::Black, column, 7))
        );
        for row in 2..6 {
            assert_eq!(board.find_piece_at(Position::new(column, row)), None);
        }
    }
}

#[test]
fn well_formedness_is_checked() {
    assert!(board_of(vec![]).is_well_formed());
    let twice = ChessBoard {
        pieces: vec![
            piece(PieceType::Pawn, PieceColor::White, 1, 1),
            piece(PieceType::Rook, PieceColor::Black, 1, 1),
        ],
    };
    assert!(!twice.is_well_formed());
    let off = ChessBoard { pieces: vec![piece(PieceType::Pawn, PieceColor::White, 8, 1)] };
    assert!(!off.is_well_formed());
    let kings = ChessBoard {
        pieces: vec![
            piece(PieceType::King, PieceColor::White, 1, 1),
            piece(PieceType::Pawn, PieceColor::White, 5, 5),
            piece(PieceType::King, PieceColor::White, 2, 2),
        ],
    };
    assert!(!kings.is_well_formed());
    let two_sides = ChessBoard {
        pieces: vec![
            piece(PieceType::King, PieceColor::White, 1, 1),
            piece(PieceType::King, PieceColor::Black, 2, 2),
        ],
    };
    assert!(two_sides.is_well_formed());
}

#[test]
fn clone_keeps_the_pieces() {
    let board = ChessBoard::new();
    let copy = board.clone();
    assert_eq!(copy.pieces, board.pieces);
}

#[test]
fn find_king_by_side() {
    let board = ChessBoard::new();
    assert_eq!(
        board.find_king(PieceColor::White),
        Some(&piece(PieceType::King, PieceColor::White, 4, 0))
    );
    assert_eq!(
        board.find_king(PieceColor::Black),
        Some(&piece(PieceType::King, PieceColor::Black, 4, 7))
    );
    let lonely = board_of(vec![piece(PieceType::King, PieceColor::Black, 0, 0)]);
    assert_eq!(lonely.find_king(PieceColor::White), None);
    assert!(lonely.find_king(PieceColor::Black).is_some());
}

#[test]
fn enemy_piece_at_sees_the_other_side_only() {
    let board = ChessBoard::new();
    assert_eq!(
        board.enemy_piece_at(Position::new(0, 6), PieceColor::White),
        Some(&piece(PieceType::Pawn, PieceColor::Black, 0, 6))
    );
    assert_eq!(board.enemy_piece_at(Position::new(0, 6), PieceColor::Black), None);
    assert_eq!(board.enemy_piece_at(Position::new(0, 4), PieceColor::Black), None);
}

#[test]
fn find_own_piece_at_mut_gives_the_piece_itself() {
    let mut board = ChessBoard::new();
    assert!(board.find_own_piece_at_mut(Position::new(0, 1), PieceColor::Black).is_none());
    assert!(board.find_own_piece_at_mut(Position::new(0, 3), PieceColor::White).is_none());
    {
        let pawn = board.find_own_piece_at_mut(Position::new(0, 1), PieceColor::White);
        let pawn = pawn.expect("a white pawn starts on A2");
        assert_eq!(*pawn, piece(PieceType::Pawn, PieceColor::White, 0, 1));
        pawn.times_moved = 3;
    }
    assert_eq!(board.find_piece_at(Position::new(0, 1)).map(|p| p.times_moved), Some(3));
    assert_eq!(board.pieces.len(), 32);
}

#[test]
fn remove_piece_takes_the_named_side_only() {
    let mut board = ChessBoard::new();
    assert_eq!(board.remove_piece(Position::new(3, 0), PieceColor::Black), None);
    assert_eq!(board.pieces.len(), 32);
    assert_eq!(board.remove_piece(Position::new(3, 3), PieceColor::White), None);
    assert_eq!(
        board.remove_piece(Position::new(3, 0), PieceColor::White),
        Some(piece(PieceType::Queen, PieceColor::White, 3, 0))
    );
    assert_eq!(board.pieces.len(), 31);
    assert_eq!(board.find_piece_at(Position::new(3, 0)), None);
    assert!(board.is_well_formed());
    let rest = ChessBoard::new();
    for p in rest.pieces.iter() {
        if p.position != Position::new(3, 0) {
            assert_eq!(board.find_piece_at(p.position), Some(p));
        }
    }
}

#[test]
fn path_is_clear_without_pieces_between() {
    let board = ChessBoard::new();
    assert!(board.is_path_clear(Position::new(2, 1), Position::new(2, 3)));
    assert!(board.is_path_clear(Position::new(2, 1), Position::new(2, 5)));
    assert!(!board.is_path_clear(Position::new(2, 1), Position::new(2, 7)));
    assert!(!board.is_path_clear(Position::new(0, 0), Position::new(0, 3)));
    assert!(!board.is_path_clear(Position::new(0, 0), Position::new(3, 0)));
    assert!(!board.is_path_clear(Position::new(2, 0), Position::new(4, 2)));
    assert!(board.is_path_clear(Position::new(2, 1), Position::new(6, 5)));
    assert!(board.is_path_clear(Position::new(2, 1), Position::new(7, 6)));
    assert!(!board.is_path_clear(Position::new(7, 6), Position::new(2, 1).invert()));
    assert!(board.is_path_clear(Position::new(1, 0), Position::new(2, 2)));
    assert!(board.is_path_clear(Position::new(4, 0), Position::new(4, 1)));
    assert!(board.is_path_clear(Position::new(0, 0), Position::new(0, 0)));
}

#[test]
fn sliding_pieces_do_not_jump() {
    for (kind, to) in [
        (PieceType::Rook, Position::new(3, 6)),
        (PieceType::Queen, Position::new(3, 6)),
        (PieceType::Bishop, Position::new(6, 6)),
        (PieceType::Queen, Position::new(6, 6)),
        (PieceType::Rook, Position::new(7, 3)),
    ] {
        let blocker = match (to.column, to.row) {
            (3, 6) => Position::new(3, 5),
            (6, 6) => Position::new(4, 4),
            _ => Position::new(6, 3),
        };
        for blocker_color in [PieceColor::White, PieceColor::Black] {
            let start = vec![
                piece(kind, PieceColor::White, 3, 3),
                Piece {
                    piece_type: PieceType::Pawn,
                    color: blocker_color,
                    position: blocker,
                    times_moved: 1,
                },
            ];
            let mut board = board_of(start.clone());
            assert_eq!(
                board.move_piece(PieceColor::White, Position::new(3, 3), to),
                Err(RuleViolation::PathBlocked)
            );
            assert_eq!(board.pieces, start);
        }
        let mut free = board_of(vec![piece(kind, PieceColor::White, 3, 3)]);
        assert_eq!(free.move_piece(PieceColor::White, Position::new(3, 3), to), Ok((kind, None)));
    }
}

#[test]
fn knight_and_king_ignore_what_stands_around() {
    let mut board = ChessBoard::new();
    assert_eq!(
        board.move_piece(PieceColor::White, Position::new(1, 0), Position::new(2, 2)),
        Ok((PieceType::Knight, None))
    );
    assert_eq!(
        board.find_piece_at(Position::new(2, 2)),
        Some(&Piece {
            piece_type: PieceType::Knight,
            color: PieceColor::White,
            position: Position::new(2, 2),
            times_moved: 1,
        })
    );
    let mut crowded = board_of(vec![
        piece(PieceType::King, PieceColor::White, 3, 3),
        piece(PieceType::Pawn, PieceColor::White, 3, 4),
        piece(PieceType::Pawn, PieceColor::White, 4, 3),
        piece(PieceType::Pawn, PieceColor::Black, 2, 3),
        piece(PieceType::Pawn, PieceColor::Black, 3, 2),
    ]);
    assert_eq!(
        crowded.move_piece(PieceColor::White, Position::new(3, 3), Position::new(4, 4)),
        Ok((PieceType::King, None))
    );
}

#[test]
fn move_needs_an_own_piece_on_the_first_square() {
    let mut board = ChessBoard::new();
    let before = board.pieces.clone();
    assert_eq!(
        board.move_piece(PieceColor::White, Position::new(2, 2), Position::new(2, 3)),
        Err(RuleViolation::NoPieceAtPosition)
    );
    assert_eq!(
        board.move_piece(PieceColor::White, Position::new(2, 6), Position::new(2, 5)),
        Err(RuleViolation::NoPieceAtPosition)
    );
    assert_eq!(
        board.move_piece(PieceColor::Black, Position::new(2, 1), Position::new(2, 2)),
        Err(RuleViolation::NoPieceAtPosition)
    );
    assert_eq!(board.pieces, before);
}

#[test]
fn move_off_the_board_is_refused_first() {
    let mut board = ChessBoard::new();
    let before = board.pieces.clone();
    assert_eq!(
        board.move_piece(PieceColor::White, Position::new(0, 0), Position::new(0, -1)),
        Err(RuleViolation::OffBoard)
    );
    assert_eq!(
        board.move_piece(PieceColor::White, Position::new(8, 1), Position::new(7, 1)),
        Err(RuleViolation::OffBoard)
    );
    assert_eq!(
        board.move_piece(PieceColor::White, Position::new(i8::MIN, i8::MAX), Position::new(0, 0)),
        Err(RuleViolation::OffBoard)
    );
    assert_eq!(board.pieces, before);
}

#[test]
fn blocked_path_is_reported_before_the_missing_piece() {
    let mut board = ChessBoard::new();
    assert_eq!(
        board.move_piece(PieceColor::White, Position::new(0, 2), Position::new(0, 7)),
        Err(RuleViolation::PathBlocked)
    );
}

#[test]
fn shape_violations_leave_the_board_unchanged() {
    let mut board = ChessBoard::new();
    let before = board.pieces.clone();
    assert_eq!(
        board.move_piece(PieceColor::White, Position::new(1, 0), Position::new(1, 2)),
        Err(RuleViolation::PathBlocked)
    );
    assert_eq!(
        board.move_piece(PieceColor::White, Position::new(1, 0), Position::new(3, 2)),
        Err(RuleViolation::PathBlocked)
    );
    assert_eq!(
        board.move_piece(PieceColor::White, Position::new(1, 0), Position::new(2, 3)),
        Err(RuleViolation::IncorrectKnightMove)
    );
    assert_eq!(
        board.move_piece(PieceColor::White, Position::new(4, 0), Position::new(4, 1)),
        Err(RuleViolation::OwnPieceAtDestination)
    );
    assert_eq!(
        board.move_piece(PieceColor::White, Position::new(4, 0), Position::new(4, 0)),
        Err(RuleViolation::OwnPieceAtDestination)
    );
    assert_eq!(
        board.move_piece(PieceColor::White, Position::new(0, 0), Position::new(1, 2)),
        Err(RuleViolation::IncorrectRookMove)
    );
    assert_eq!(
        board.move_piece(PieceColor::White, Position::new(2, 0), Position::new(3, 2)),
        Err(RuleViolation::IncorrectBishopMove)
    );
    assert_eq!(
        board.move_piece(PieceColor::White, Position::new(3, 0), Position::new(4, 2)),
        Err(RuleViolation::IncorrectQueenMove)
    );
    assert_eq!(
        board.move_piece(PieceColor::White, Position::new(4, 0), Position::new(6, 2)),
        Err(RuleViolation::PathBlocked)
    );
    assert_eq!(
        board.move_piece(PieceColor::White, Position::new(2, 1), Position::new(2, 1)),
        Err(RuleViolation::PawnTooShort)
    );
    assert_eq!(
        board.move_piece(PieceColor::White, Position::new(2, 1), Position::new(3, 2)),
        Err(RuleViolation::PawnUnreachable)
    );
    assert_eq!(board.pieces, before);
    let mut open = board_of(vec![piece(PieceType::King, PieceColor::White, 4, 0)]);
    assert_eq!(
        open.move_piece(PieceColor::White, Position::new(4, 0), Position::new(4, 2)),
        Err(RuleViolation::IncorrectKingMove)
    );
}

#[test]
fn pawn_double_step_then_single_steps() {
    let mut board = ChessBoard::new();
    assert_eq!(
        board.move_piece(PieceColor::White, Position::new(2, 1), Position::new(2, 3)),
        Ok((PieceType::Pawn, None))
    );
    assert_eq!(board.find_piece_at(Position::new(2, 1)), None);
    assert_eq!(
        board.find_piece_at(Position::new(2, 3)),
        Some(&Piece {
            piece_type: PieceType::Pawn,
            color: PieceColor::White,
            position: Position::new(2, 3),
            times_moved: 1,
        })
    );
    assert_eq!(board.pieces.len(), 32);
    let before = board.pieces.clone();
    assert_eq!(
        board.move_piece(PieceColor::White, Position::new(2, 3), Position::new(2, 5)),
        Err(RuleViolation::PawnDoubleStepAfterFirstMove)
    );
    assert_eq!(board.pieces, before);
    assert_eq!(
        board.move_piece(PieceColor::White, Position::new(2, 3), Position::new(2, 4)),
        Ok((PieceType::Pawn, None))
    );
    assert_eq!(
        board.move_piece(PieceColor::White, Position::new(2, 4), Position::new(2, 5)),
        Ok((PieceType::Pawn, None))
    );
    assert_eq!(
        board.move_piece(PieceColor::White, Position::new(2, 5), Position::new(2, 6)),
        Err(RuleViolation::PawnDestinationOccupied)
    );
}

#[test]
fn pawn_double_step_cannot_jump() {
    let mut board = board_of(vec![
        piece(PieceType::Pawn, PieceColor::White, 2, 1),
        piece(PieceType::Knight, PieceColor::Black, 2, 2),
    ]);
    assert_eq!(
        board.move_piece(PieceColor::White, Position::new(2, 1), Position::new(2, 3)),
        Err(RuleViolation::PathBlocked)
    );
}

#[test]
fn pawn_captures_diagonally_and_only_the_other_side() {
    let start = vec![
        piece(PieceType::Pawn, PieceColor::White, 2, 1),
        piece(PieceType::Knight, PieceColor::Black, 3, 2),
        piece(PieceType::Knight, PieceColor::White, 1, 2),
    ];
    let mut board = board_of(start.clone());
    assert_eq!(
        board.move_piece(PieceColor::White, Position::new(2, 1), Position::new(1, 2)),
        Err(RuleViolation::OwnPieceAtDestination)
    );
    assert_eq!(board.pieces, start);
    assert_eq!(
        board.move_piece(PieceColor::White, Position::new(2, 1), Position::new(3, 2)),
        Ok((PieceType::Pawn, Some(piece(PieceType::Knight, PieceColor::Black, 3, 2))))
    );
    assert_eq!(
        sorted(&board),
        vec![
            (1, 2, PieceType::Knight, PieceColor::White, 0),
            (3, 2, PieceType::Pawn, PieceColor::White, 1),
        ]
    );
    assert!(board.is_well_formed());
    let mut empty = board_of(vec![piece(PieceType::Pawn, PieceColor::White, 2, 1)]);
    assert_eq!(
        empty.move_piece(PieceColor::White, Position::new(2, 1), Position::new(3, 2)),
        Err(RuleViolation::PawnUnreachable)
    );
}

#[test]
fn capture_removes_the_opposing_piece_only() {
    let mut board = board_of(vec![
        piece(PieceType::Rook, PieceColor::White, 0, 0),
        piece(PieceType::Pawn, PieceColor::White, 1, 0),
        piece(PieceType::Queen, PieceColor::Black, 0, 5),
        piece(PieceType::King, PieceColor::Black, 7, 7),
        piece(PieceType::King, PieceColor::White, 7, 0),
    ]);
    assert_eq!(
        board.move_piece(PieceColor::White, Position::new(0, 0), Position::new(0, 5)),
        Ok((PieceType::Rook, Some(piece(PieceType::Queen, PieceColor::Black, 0, 5))))
    );
    assert_eq!(
        sorted(&board),
        vec![
            (0, 5, PieceType::Rook, PieceColor::White, 1),
            (1, 0, PieceType::Pawn, PieceColor::White, 0),
            (7, 0, PieceType::King, PieceColor::White, 0),
            (7, 7, PieceType::King, PieceColor::Black, 0),
        ]
    );
    assert!(board.is_well_formed());
}

#[test]
fn capture_by_the_last_piece_of_the_list() {
    let mut board = board_of(vec![
        piece(PieceType::Queen, PieceColor::Black, 0, 5),
        piece(PieceType::King, PieceColor::Black, 7, 7),
        piece(PieceType::Rook, PieceColor::White, 0, 0),
    ]);
    assert_eq!(
        board.move_piece(PieceColor::White, Position::new(0, 0), Position::new(0, 5)),
        Ok((PieceType::Rook, Some(piece(PieceType::Queen, PieceColor::Black, 0, 5))))
    );
    assert_eq!(
        sorted(&board),
        vec![
            (0, 5, PieceType::Rook, PieceColor::White, 1),
            (7, 7, PieceType::King, PieceColor::Black, 0),
        ]
    );
}

#[test]
fn pawn_promotes_when_it_reaches_the_far_rank() {
    let mut board = board_of(vec![
        Piece {
            piece_type: PieceType::Pawn,
            color: PieceColor::White,
            position: Position::new(0, 6),
            times_moved: 5,
        },
        piece(PieceType::Rook, PieceColor::Black, 1, 7),
    ]);
    assert_eq!(
        board.move_piece(PieceColor::White, Position::new(0, 6), Position::new(1, 7)),
        Ok((PieceType::Pawn, Some(piece(PieceType::Rook, PieceColor::Black, 1, 7))))
    );
    assert_eq!(sorted(&board), vec![(1, 7, PieceType::Queen, PieceColor::White, 6)]);
}
