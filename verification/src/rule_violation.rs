//! The reasons for which a move is refused.

use vstd::prelude::*;
use vstd::string::*;

verus! {

/// Why a move was refused. A refused move leaves the board as it was.
#[derive(PartialEq, Eq, Structural, Clone, Copy, Debug)]
pub enum RuleViolation {
    /// A square of the move does not lie on the board.
    OffBoard,
    /// A piece stands between the two squares of the move.
    PathBlocked,
    /// The mover has no piece on the square the move starts from.
    NoPieceAtPosition,
    /// A knight moves one square one way and two the other.
    IncorrectKnightMove,
    /// A king moves a single square.
    IncorrectKingMove,
    /// A rook moves along a row or along a column.
    IncorrectRookMove,
    /// A bishop moves along a diagonal.
    IncorrectBishopMove,
    /// A queen moves as a rook or as a bishop.
    IncorrectQueenMove,
    /// A pawn advances two squares at most.
    PawnTooFar,
    /// A pawn advances one square at least.
    PawnTooShort,
    /// A pawn advances two squares on its first move only.
    PawnDoubleStepAfterFirstMove,
    /// A pawn does not advance onto an occupied square.
    PawnDestinationOccupied,
    /// A pawn reaches no other square: it leaves its column only to
    /// capture on a neighbouring square of a diagonal.
    PawnUnreachable,
    /// A piece of the mover's own side stands on the destination.
    OwnPieceAtDestination,
}

impl RuleViolation {
    /// The sentence that tells a player of the violation.
    pub open spec fn text(self) -> Seq<char> {
        match self {
            RuleViolation::OffBoard => "The position is not on the board"@,
            RuleViolation::PathBlocked => "The path is currently occupied"@,
            RuleViolation::NoPieceAtPosition => "You don't have a piece at this position!"@,
            RuleViolation::IncorrectKnightMove => "Incorrect knight move!"@,
            RuleViolation::IncorrectKingMove => "Incorrect King move!"@,
            RuleViolation::IncorrectRookMove => "Incorrect rook move"@,
            RuleViolation::IncorrectBishopMove => "Incorrect bishop move"@,
            RuleViolation::IncorrectQueenMove => "Incorrect queen move"@,
            RuleViolation::PawnTooFar => "Can't go further than two tiles"@,
            RuleViolation::PawnTooShort => "Can't go less than one tile"@,
            RuleViolation::PawnDoubleStepAfterFirstMove =>
                "Can't move more than one tile after the first move!"@,
            RuleViolation::PawnDestinationOccupied =>
                "Cannot move to the new position, there is already a piece there."@,
            RuleViolation::PawnUnreachable => "Movement unreachable by any means"@,
            RuleViolation::OwnPieceAtDestination => "Cannot capture a piece of your own"@,
        }
    }

    /// Returns the sentence that tells a player of the violation.
    pub fn message(&self) -> (message: String)
        ensures
            message@ == self.text(),
    {
        let text = match self {
            RuleViolation::OffBoard => "The position is not on the board",
            RuleViolation::PathBlocked => "The path is currently occupied",
            RuleViolation::NoPieceAtPosition => "You don't have a piece at this position!",
            RuleViolation::IncorrectKnightMove => "Incorrect knight move!",
            RuleViolation::IncorrectKingMove => "Incorrect King move!",
            RuleViolation::IncorrectRookMove => "Incorrect rook move",
            RuleViolation::IncorrectBishopMove => "Incorrect bishop move",
            RuleViolation::IncorrectQueenMove => "Incorrect queen move",
            RuleViolation::PawnTooFar => "Can't go further than two tiles",
            RuleViolation::PawnTooShort => "Can't go less than one tile",
            RuleViolation::PawnDoubleStepAfterFirstMove =>
                "Can't move more than one tile after the first move!",
            RuleViolation::PawnDestinationOccupied =>
                "Cannot move to the new position, there is already a piece there.",
            RuleViolation::PawnUnreachable => "Movement unreachable by any means",
            RuleViolation::OwnPieceAtDestination => "Cannot capture a piece of your own",
        };
        String::from_str(text)
    }
}

} // verus!
