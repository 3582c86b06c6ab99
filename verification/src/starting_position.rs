//! The board when a game begins.

use crate::chessboard::{lemma_square_holds_piece, squares, well_formed};
use crate::piece::{home_row, Piece, PieceType};
use crate::piece_color::PieceColor;
use crate::position::Position;
use vstd::prelude::*;

verus! {

/// The kind of piece that starts the game in a column of a side's home rank.
pub open spec fn back_rank(column: int) -> PieceType {
    if column == 0 || column == 7 {
        PieceType::Rook
    } else if column == 1 || column == 6 {
        PieceType::Knight
    } else if column == 2 || column == 5 {
        PieceType::Bishop
    } else if column == 3 {
        PieceType::Queen
    } else {
        PieceType::King
    }
}

/// Whether a piece stands on `at` when the game begins: on the two rows
/// nearest to each side.
pub open spec fn starts_occupied(at: Position) -> bool {
    at.on_board() && (at.row <= 1 || at.row >= 6)
}

/// The piece that stands on `at` when the game begins: pawns on rows 1 and
/// 6, the other pieces behind them, White on the low rows.
pub open spec fn starting_piece(at: Position) -> Piece {
    Piece {
        piece_type: if at.row == 1 || at.row == 6 {
            PieceType::Pawn
        } else {
            back_rank(at.column as int)
        },
        color: if at.row <= 1 {
            PieceColor::White
        } else {
            PieceColor::Black
        },
        position: at,
        times_moved: 0,
    }
}

/// The board when the game begins.
pub open spec fn starting_layout() -> Map<Position, Piece> {
    Map::new(|at: Position| starts_occupied(at), |at: Position| starting_piece(at))
}

/// The kind of the `i`-th piece that a side puts on the board: the eight
/// pawns first, then both rooks, both knights, both bishops, the queen and
/// the king.
pub open spec fn side_piece_type(i: int) -> PieceType {
    if i < 8 {
        PieceType::Pawn
    } else if i < 10 {
        PieceType::Rook
    } else if i < 12 {
        PieceType::Knight
    } else if i < 14 {
        PieceType::Bishop
    } else if i == 14 {
        PieceType::Queen
    } else {
        PieceType::King
    }
}

/// The column of the `i`-th piece that a side puts on the board.
pub open spec fn side_piece_column(i: int) -> i8 {
    if i < 8 {
        i as i8
    } else if i == 8 {
        0
    } else if i == 9 {
        7
    } else if i == 10 {
        1
    } else if i == 11 {
        6
    } else if i == 12 {
        2
    } else if i == 13 {
        5
    } else if i == 14 {
        3
    } else {
        4
    }
}

/// The sixteen pieces of a side on their home rows, in the order in which
/// they are put on the board.
pub open spec fn side_pieces(color: PieceColor) -> Seq<Piece> {
    Seq::new(
        16,
        |i: int|
            Piece {
                piece_type: side_piece_type(i),
                color,
                position: Position {
                    column: side_piece_column(i),
                    row: home_row(side_piece_type(i), color),
                },
                times_moved: 0,
            },
    )
}

/// The place of the piece that starts on `at` among the pieces of both
/// sides, White's first.
pub open spec fn starting_index(at: Position) -> int {
    (if at.row <= 1 {
        0int
    } else {
        16int
    }) + (if at.row == 1 || at.row == 6 {
        at.column as int
    } else if at.column == 0 {
        8
    } else if at.column == 7 {
        9
    } else if at.column == 1 {
        10
    } else if at.column == 6 {
        11
    } else if at.column == 2 {
        12
    } else if at.column == 5 {
        13
    } else if at.column == 3 {
        14
    } else {
        15
    })
}

/// The pieces of both sides on their home rows make a well-formed board,
/// which is the starting layout.
pub proof fn lemma_starting_pieces()
    ensures
        well_formed(side_pieces(PieceColor::White) + side_pieces(PieceColor::Black)),
        squares(side_pieces(PieceColor::White) + side_pieces(PieceColor::Black))
            == starting_layout(),
{
    let pieces = side_pieces(PieceColor::White) + side_pieces(PieceColor::Black);
    assert(pieces.len() == 32);
    assert forall|i: int| 0 <= i < 32 implies {
        &&& starts_occupied((#[trigger] pieces[i]).position)
        &&& pieces[i] == starting_piece(pieces[i].position)
        &&& starting_index(pieces[i].position) == i
    } by {
        if i < 16 {
            assert(pieces[i] == side_pieces(PieceColor::White)[i]);
        } else {
            assert(pieces[i] == side_pieces(PieceColor::Black)[i - 16]);
        }
    }
    assert forall|at: Position| starts_occupied(at) implies 0 <= starting_index(at) < 32
        && pieces[starting_index(at)].position == at by {
        let i = starting_index(at);
        if i < 16 {
            assert(pieces[i] == side_pieces(PieceColor::White)[i]);
        } else {
            assert(pieces[i] == side_pieces(PieceColor::Black)[i - 16]);
        }
    }
    assert(well_formed(pieces)) by {
        assert forall|i: int, j: int| 0 <= i < j < pieces.len() implies (
        #[trigger] pieces[i]).position != (#[trigger] pieces[j]).position by {
            assert(starting_index(pieces[i].position) == i);
            assert(starting_index(pieces[j].position) == j);
        }
        assert forall|i: int, j: int|
            0 <= i < j < pieces.len() && (#[trigger] pieces[i]).piece_type == PieceType::King && (
            #[trigger] pieces[j]).piece_type == PieceType::King implies pieces[i].color
            != pieces[j].color by {
            assert(starting_index(pieces[i].position) == i);
            assert(starting_index(pieces[j].position) == j);
        }
    }
    assert forall|at: Position| squares(pieces).contains_key(at) == starts_occupied(at) by {
        if starts_occupied(at) {
            assert(pieces[starting_index(at)].position == at);
        }
    }
    assert forall|at: Position| #[trigger] squares(pieces).contains_key(at) implies squares(
        pieces,
    )[at] == starting_piece(at) by {
        lemma_square_holds_piece(pieces, at);
    }
    assert(squares(pieces) =~= starting_layout());
}

} // verus!
