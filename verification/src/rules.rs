//! What holds of every move on every valid board.

use crate::chessboard::{lemma_square_holds_piece, ChessBoard};
use crate::piece::{king_shape, knight_shape, PieceType};
use crate::piece_color::PieceColor;
use crate::position::{lies_between, Position};
use crate::rule_violation::RuleViolation;
use vstd::math::abs;
use vstd::prelude::*;

verus! {

/// A move across an occupied square is refused because its path is blocked,
/// whatever piece moves: a rook, a bishop and a queen cannot jump.
pub proof fn blocked_path_is_refused(
    board: ChessBoard,
    color: PieceColor,
    from: Position,
    to: Position,
    at: Position,
)
    requires
        from.on_board(),
        to.on_board(),
        lies_between(from, to, at),
        board@.contains_key(at),
    ensures
        board.move_violation(color, from, to) == Some(RuleViolation::PathBlocked),
{
}

/// No square lies between the two squares of a knight's move or of a king's
/// move, so that on every board their path is clear.
pub proof fn short_moves_pass_over_nothing(board: ChessBoard, from: Position, to: Position)
    requires
        knight_shape(to.row - from.row, to.column - from.column) || king_shape(
            to.row - from.row,
            to.column - from.column,
        ),
    ensures
        forall|at: Position| !lies_between(from, to, at),
        board.path_clear(from, to),
{
}

/// Whether a knight or a king may move depends on the two squares of the
/// move alone: two valid boards that agree on them both allow the move or
/// both refuse it, whatever stands between the squares.
pub proof fn short_moves_ignore_other_squares(
    board: ChessBoard,
    other: ChessBoard,
    color: PieceColor,
    from: Position,
    to: Position,
)
    requires
        board.wf(),
        other.wf(),
        board.has_piece_of(color, from),
        board@[from].piece_type == PieceType::Knight || board@[from].piece_type
            == PieceType::King,
        other.piece_on(from) == board.piece_on(from),
        other.piece_on(to) == board.piece_on(to),
    ensures
        other.move_violation(color, from, to) is None <==> board.move_violation(color, from, to)
            is None,
{
    lemma_square_holds_piece(board.pieces@, from);
    if from.on_board() && to.on_board() {
        let rows = to.row - from.row;
        let columns = to.column - from.column;
        if knight_shape(rows, columns) || king_shape(rows, columns) {
            short_moves_pass_over_nothing(board, from, to);
            short_moves_pass_over_nothing(other, from, to);
        }
    }
}

/// A pawn that has moved before advances one row at most.
pub proof fn pawn_steps_twice_on_first_move_only(
    board: ChessBoard,
    color: PieceColor,
    from: Position,
    to: Position,
)
    requires
        board.wf(),
        board.has_piece_of(color, from),
        board@[from].piece_type == PieceType::Pawn,
        board@[from].times_moved != 0,
        board.move_violation(color, from, to) is None,
    ensures
        abs(to.row - from.row) <= 1,
{
    lemma_square_holds_piece(board.pieces@, from);
}

/// A pawn that moves to a neighbouring square of a diagonal may do so if
/// and only if a piece of the other side stands there: never onto a free
/// square, and never onto a piece of its own side.
pub proof fn pawn_moves_diagonally_to_capture_only(
    board: ChessBoard,
    color: PieceColor,
    from: Position,
    to: Position,
)
    requires
        board.wf(),
        from.on_board(),
        to.on_board(),
        board.has_piece_of(color, from),
        board@[from].piece_type == PieceType::Pawn,
        abs(to.column - from.column) == 1,
        abs(to.row - from.row) == 1,
    ensures
        board.move_violation(color, from, to) is None <==> board.has_piece_of(
            color.opposite(),
            to,
        ),
{
    lemma_square_holds_piece(board.pieces@, from);
    assert forall|at: Position| !lies_between(from, to, at) by {}
}

/// A move takes no piece of the mover's own side off the board: what it
/// captures is of the other side, and every other piece of the mover stays
/// where it was.
pub proof fn capture_spares_own_side(
    board: ChessBoard,
    color: PieceColor,
    from: Position,
    to: Position,
)
    requires
        board.wf(),
        board.move_violation(color, from, to) is None,
    ensures
        board.piece_on(to) matches Some(captured) ==> captured.color == color.opposite(),
        forall|at: Position|
            board.has_piece_of(color, at) && at != from ==> #[trigger] board.after_move(
                from,
                to,
            ).contains_key(at) && board.after_move(from, to)[at] == board@[at],
        board.after_move(from, to).contains_key(to) && board.after_move(from, to)[to].color
            == color,
{
    lemma_square_holds_piece(board.pieces@, from);
}

/// A move changes the two squares of the move and no other.
pub proof fn move_changes_two_squares(
    board: ChessBoard,
    color: PieceColor,
    from: Position,
    to: Position,
    at: Position,
)
    requires
        board.move_violation(color, from, to) is None,
        at != from,
        at != to,
    ensures
        board.after_move(from, to).contains_key(at) == board@.contains_key(at),
        board@.contains_key(at) ==> board.after_move(from, to)[at] == board@[at],
        !board.after_move(from, to).contains_key(from),
{
    if from == to {
        if board@.contains_key(from) {
            lemma_square_holds_piece(board.pieces@, from);
        }
    }
}

} // verus!
