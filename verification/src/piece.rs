//! The pieces and the shape of their moves.

use crate::piece_color::PieceColor;
use crate::position::Position;
use crate::rule_violation::RuleViolation;
use vstd::math::abs;
use vstd::prelude::*;

verus! {

/// The kinds of pieces.
#[derive(PartialEq, Eq, Structural, Clone, Copy, Debug)]
pub enum PieceType {
    Rook,
    Knight,
    Bishop,
    Queen,
    King,
    Pawn,
}

impl PieceType {
    /// The name of the kind of piece.
    pub open spec fn name(self) -> Seq<char> {
        match self {
            PieceType::Rook => "Rook"@,
            PieceType::Knight => "Knight"@,
            PieceType::Bishop => "Bishop"@,
            PieceType::Queen => "Queen"@,
            PieceType::King => "King"@,
            PieceType::Pawn => "Pawn"@,
        }
    }

    /// Returns the name of the kind of piece.
    pub fn get_name(&self) -> (name: &'static str)
        ensures
            name@ == self.name(),
    {
        match self {
            PieceType::Rook => "Rook",
            PieceType::Knight => "Knight",
            PieceType::Bishop => "Bishop",
            PieceType::Queen => "Queen",
            PieceType::King => "King",
            PieceType::Pawn => "Pawn",
        }
    }
}

/// A piece on the board. `times_moved` counts its moves and stops counting
/// at `u8::MAX`.
#[derive(PartialEq, Eq, Structural, Clone, Copy, Debug)]
pub struct Piece {
    pub piece_type: PieceType,
    pub color: PieceColor,
    pub position: Position,
    pub times_moved: u8,
}

/// The row on which a piece stands when the game begins.
pub open spec fn home_row(piece_type: PieceType, color: PieceColor) -> i8 {
    match (piece_type, color) {
        (PieceType::Pawn, PieceColor::White) => 1,
        (PieceType::Pawn, PieceColor::Black) => 6,
        (_, PieceColor::White) => 0,
        (_, PieceColor::Black) => 7,
    }
}

/// One square one way and two the other.
pub open spec fn knight_shape(rows: int, columns: int) -> bool {
    (abs(rows) == 1 && abs(columns) == 2) || (abs(rows) == 2 && abs(columns) == 1)
}

/// A single square in any direction, or none.
pub open spec fn king_shape(rows: int, columns: int) -> bool {
    abs(rows) <= 1 && abs(columns) <= 1
}

/// Along a row or along a column, but not both and not neither.
pub open spec fn rook_shape(rows: int, columns: int) -> bool {
    (rows == 0) != (columns == 0)
}

/// As many rows as columns, and at least one.
pub open spec fn bishop_shape(rows: int, columns: int) -> bool {
    abs(rows) == abs(columns) && rows != 0
}

/// As a rook or as a bishop.
pub open spec fn queen_shape(rows: int, columns: int) -> bool {
    rook_shape(rows, columns) || bishop_shape(rows, columns)
}

/// The counter of moves after one more move.
pub open spec fn counted_once_more(times_moved: u8) -> u8 {
    if times_moved < u8::MAX {
        (times_moved + 1) as u8
    } else {
        times_moved
    }
}

impl Piece {
    /// How many rows the piece advances towards the other side's home rank on
    /// its way to `to`; negative when it retreats.
    pub open spec fn advance(self, to: Position) -> int {
        match self.color {
            PieceColor::White => to.row - self.position.row,
            PieceColor::Black => self.position.row - to.row,
        }
    }

    /// Whether `to` lies on the farthest rank for the piece's side.
    pub open spec fn reaches_far_rank(self, to: Position) -> bool {
        match self.color {
            PieceColor::White => to.row == 7,
            PieceColor::Black => to.row == 0,
        }
    }

    /// What forbids a piece to land on a square where a piece of the
    /// `occupant` side stands.
    pub open spec fn landing_violation(self, occupant: Option<PieceColor>) -> Option<
        RuleViolation,
    > {
        if occupant == Some(self.color) {
            Some(RuleViolation::OwnPieceAtDestination)
        } else {
            None
        }
    }

    /// What forbids the pawn to move to `to`, if anything: it advances one
    /// square, or two on its first move, onto a free square of its column, or
    /// captures a piece of the other side on a neighbouring square of a
    /// diagonal: one column to the side and one row away.
    pub open spec fn pawn_violation(self, to: Position, occupant: Option<PieceColor>) -> Option<
        RuleViolation,
    > {
        if to.column == self.position.column {
            if self.advance(to) > 2 {
                Some(RuleViolation::PawnTooFar)
            } else if self.advance(to) < 1 {
                Some(RuleViolation::PawnTooShort)
            } else if self.times_moved != 0 && self.advance(to) == 2 {
                Some(RuleViolation::PawnDoubleStepAfterFirstMove)
            } else if occupant is Some {
                Some(RuleViolation::PawnDestinationOccupied)
            } else {
                None
            }
        } else if abs(to.column - self.position.column) == 1 && abs(to.row - self.position.row)
            == 1 {
            if occupant is None {
                Some(RuleViolation::PawnUnreachable)
            } else {
                self.landing_violation(occupant)
            }
        } else {
            Some(RuleViolation::PawnUnreachable)
        }
    }

    /// What forbids the piece to move to `to`, if anything, where `occupant`
    /// is the side of the piece that stands on `to`, if one does.
    pub open spec fn violation(self, to: Position, occupant: Option<PieceColor>) -> Option<
        RuleViolation,
    > {
        let rows = to.row - self.position.row;
        let columns = to.column - self.position.column;
        if !self.position.on_board() || !to.on_board() {
            Some(RuleViolation::OffBoard)
        } else {
            match self.piece_type {
                PieceType::Pawn => self.pawn_violation(to, occupant),
                PieceType::Knight => if knight_shape(rows, columns) {
                    self.landing_violation(occupant)
                } else {
                    Some(RuleViolation::IncorrectKnightMove)
                },
                PieceType::King => if king_shape(rows, columns) {
                    self.landing_violation(occupant)
                } else {
                    Some(RuleViolation::IncorrectKingMove)
                },
                PieceType::Rook => if rook_shape(rows, columns) {
                    self.landing_violation(occupant)
                } else {
                    Some(RuleViolation::IncorrectRookMove)
                },
                PieceType::Bishop => if bishop_shape(rows, columns) {
                    self.landing_violation(occupant)
                } else {
                    Some(RuleViolation::IncorrectBishopMove)
                },
                PieceType::Queen => if queen_shape(rows, columns) {
                    self.landing_violation(occupant)
                } else {
                    Some(RuleViolation::IncorrectQueenMove)
                },
            }
        }
    }

    /// The piece after its move to `to`: it stands there, has moved once
    /// more, and a pawn that reached the farthest rank is a queen.
    pub open spec fn moved_to(self, to: Position) -> Piece {
        Piece {
            piece_type: if self.piece_type == PieceType::Pawn && self.reaches_far_rank(to) {
                PieceType::Queen
            } else {
                self.piece_type
            },
            color: self.color,
            position: to,
            times_moved: counted_once_more(self.times_moved),
        }
    }

    /// A piece on its home row, in the given column, that has not moved yet.
    pub fn new(piece_type: PieceType, color: PieceColor, column: i8) -> (piece: Piece)
        ensures
            piece == (Piece {
                piece_type,
                color,
                position: Position { column, row: home_row(piece_type, color) },
                times_moved: 0,
            }),
    {
        let row: i8 = match (&piece_type, &color) {
            (PieceType::Pawn, PieceColor::White) => 1,
            (PieceType::Pawn, PieceColor::Black) => 6,
            (_, PieceColor::White) => 0,
            (_, PieceColor::Black) => 7,
        };
        Piece { piece_type, color, position: Position::new(column, row), times_moved: 0 }
    }

    /// Moves the piece to `new_position` if its rules allow the move, and
    /// says why not if they do not. `occupant` is the side of the piece that
    /// stands on `new_position`, if one does.
    pub fn move_piece_to(&mut self, new_position: Position, occupant: Option<PieceColor>) -> (moved:
        Result<(), RuleViolation>)
        ensures
            match moved {
                Ok(()) => old(self).violation(new_position, occupant) is None && *final(self)
                    == old(self).moved_to(new_position),
                Err(violation) => old(self).violation(new_position, occupant) == Some(violation)
                    && *final(self) == *old(self),
            },
    {
        if !self.position.is_on_board() || !new_position.is_on_board() {
            return Err(RuleViolation::OffBoard);
        }
        let position_difference = new_position - self.position;
        let mut promoted = false;
        match self.piece_type {
            PieceType::Pawn => {
                if let Err(violation) = self.pawn_move(new_position, occupant) {
                    return Err(violation);
                }
                promoted = match self.color {
                    PieceColor::White => new_position.row == 7,
                    PieceColor::Black => new_position.row == 0,
                };
            },
            PieceType::Knight => {
                if !((position_difference.0 == 1 && position_difference.1 == 2) || (
                position_difference.0 == 2 && position_difference.1 == 1)) {
                    return Err(RuleViolation::IncorrectKnightMove);
                }
            },
            PieceType::King => {
                if !(position_difference.0 <= 1 && position_difference.1 <= 1) {
                    return Err(RuleViolation::IncorrectKingMove);
                }
            },
            PieceType::Rook => {
                if let Err(violation) = self.rook_move(position_difference) {
                    return Err(violation);
                }
            },
            PieceType::Bishop => {
                if let Err(violation) = self.bishop_move(position_difference) {
                    return Err(violation);
                }
            },
            PieceType::Queen => {
                let move_successful = self.rook_move(position_difference).is_ok()
                    || self.bishop_move(position_difference).is_ok();
                if !move_successful {
                    return Err(RuleViolation::IncorrectQueenMove);
                }
            },
        };
        if let Some(color) = occupant {
            if color == self.color {
                return Err(RuleViolation::OwnPieceAtDestination);
            }
        }
        if promoted {
            self.piece_type = PieceType::Queen;
        }
        self.position = new_position;
        if self.times_moved < u8::MAX {
            self.times_moved += 1;
        }
        Ok(())
    }

    /// Accepts the distances of a rook's move: along a row or along a column.
    pub fn rook_move(&self, position_difference: (i8, i8)) -> (checked: Result<(), RuleViolation>)
        ensures
            checked is Ok <==> rook_shape(position_difference.0 as int, position_difference.1 as int),
            checked matches Err(violation) ==> violation == RuleViolation::IncorrectRookMove,
    {
        if (position_difference.0 == 0) == (position_difference.1 == 0) {
            return Err(RuleViolation::IncorrectRookMove);
        }
        Ok(())
    }

    /// Accepts the distances of a bishop's move: along a diagonal.
    pub fn bishop_move(&self, position_difference: (i8, i8)) -> (checked: Result<
        (),
        RuleViolation,
    >)
        ensures
            checked is Ok <==> bishop_shape(
                position_difference.0 as int,
                position_difference.1 as int,
            ),
            checked matches Err(violation) ==> violation == RuleViolation::IncorrectBishopMove,
    {
        let rows = position_difference.0 as i16;
        let columns = position_difference.1 as i16;
        if rows == 0 || columns == 0 || (rows != columns && rows != -columns) {
            return Err(RuleViolation::IncorrectBishopMove);
        };
        Ok(())
    }

    /// Accepts a pawn's move to `new_position`, where `occupant` is the side
    /// of the piece that stands there, if one does.
    pub fn pawn_move(&self, new_position: Position, occupant: Option<PieceColor>) -> (checked:
        Result<(), RuleViolation>)
        ensures
            match checked {
                Ok(()) => self.pawn_violation(new_position, occupant) is None,
                Err(violation) => self.pawn_violation(new_position, occupant) == Some(violation),
            },
    {
        let advance: i16 = match self.color {
            PieceColor::White => new_position.row as i16 - self.position.row as i16,
            PieceColor::Black => self.position.row as i16 - new_position.row as i16,
        };
        let sideways: i16 = new_position.column as i16 - self.position.column as i16;
        if sideways == 0 {
            if advance > 2 {
                return Err(RuleViolation::PawnTooFar);
            };
            if advance < 1 {
                return Err(RuleViolation::PawnTooShort);
            };
            if self.times_moved != 0 && advance == 2 {
                return Err(RuleViolation::PawnDoubleStepAfterFirstMove);
            };
            if occupant.is_some() {
                return Err(RuleViolation::PawnDestinationOccupied);
            }
            return Ok(());
        };
        if (sideways == 1 || sideways == -1) && (advance == 1 || advance == -1) {
            return match occupant {
                None => Err(RuleViolation::PawnUnreachable),
                Some(color) => if color == self.color {
                    Err(RuleViolation::OwnPieceAtDestination)
                } else {
                    Ok(())
                },
            };
        }
        Err(RuleViolation::PawnUnreachable)
    }
}

} // verus!
