//! The messages that the queue and a game exchange with the players.

use crate::fault::{QueueError, SessionFault};
use crate::piece_color::PieceColor;
use crate::position::Position;
use crate::rule_violation::RuleViolation;
use vstd::prelude::*;

verus! {

/// A move as a player submits it: the square a piece leaves and the square
/// it goes to.
#[derive(PartialEq, Eq, Structural, Clone, Copy, Debug)]
pub struct ChessMove {
    pub position_from: Position,
    pub position_to: Position,
}

impl ChessMove {
    /// Whether both squares of the move lie on the board.
    pub open spec fn on_board(self) -> bool {
        self.position_from.on_board() && self.position_to.on_board()
    }

    /// Whether the counterparts of both squares fit the coordinate type.
    pub open spec fn invertible(self) -> bool {
        self.position_from.invertible() && self.position_to.invertible()
    }

    /// The same move seen from the other side of the board.
    pub open spec fn inverted(self) -> ChessMove
        recommends
            self.invertible(),
    {
        ChessMove {
            position_from: self.position_from.inverted(),
            position_to: self.position_to.inverted(),
        }
    }

    /// The move taken from the board's own frame, which is White's, to the
    /// frame of the `color` side, or back: the two ways are the same.
    pub open spec fn seen_by(self, color: PieceColor) -> ChessMove
        recommends
            self.invertible(),
    {
        match color {
            PieceColor::Black => self.inverted(),
            PieceColor::White => self,
        }
    }

    /// Tells whether both squares of the move lie on the board.
    pub fn is_on_board(&self) -> (on_board: bool)
        ensures
            on_board == self.on_board(),
    {
        self.position_from.is_on_board() && self.position_to.is_on_board()
    }

    /// Turns the move round to the other side's view of the board.
    pub fn invert(&self) -> (inverted: ChessMove)
        requires
            self.invertible(),
        ensures
            inverted == self.inverted(),
            self.on_board() ==> inverted.on_board(),
    {
        ChessMove {
            position_from: self.position_from.invert(),
            position_to: self.position_to.invert(),
        }
    }

    /// Takes the move from the board's frame to that of the
    /// `color` side: Black sees the board turned round, White as it is.
    pub fn maybe_invert(&self, color: PieceColor) -> (seen: ChessMove)
        requires
            color == PieceColor::Black ==> self.invertible(),
        ensures
            seen == self.seen_by(color),
            self.on_board() ==> seen.on_board(),
    {
        match color {
            PieceColor::Black => self.invert(),
            PieceColor::White => *self,
        }
    }
}

/// A captured piece as the players are told of it: the side that lost it
/// and the square on which it stood.
#[derive(PartialEq, Eq, Structural, Clone, Copy, Debug)]
pub struct CapturedPiece {
    pub color: PieceColor,
    pub position: Position,
}

impl CapturedPiece {
    /// The capture taken from the board's frame to that of the
    /// `color` side.
    pub open spec fn seen_by(self, color: PieceColor) -> CapturedPiece
        recommends
            self.position.invertible(),
    {
        match color {
            PieceColor::Black => CapturedPiece {
                color: self.color,
                position: self.position.inverted(),
            },
            PieceColor::White => self,
        }
    }

    /// Takes the capture from the board's frame to that of the
    /// `color` side.
    pub fn maybe_invert(&self, color: PieceColor) -> (seen: CapturedPiece)
        requires
            color == PieceColor::Black ==> self.position.invertible(),
        ensures
            seen == self.seen_by(color),
    {
        match color {
            PieceColor::Black => CapturedPiece {
                color: self.color,
                position: self.position.invert(),
            },
            PieceColor::White => *self,
        }
    }
}

/// What a player sends during a game.
#[derive(PartialEq, Eq, Structural, Clone, Copy, Debug)]
pub enum GameClientMsg {
    /// The player ends the turn with a move, in the player's own frame.
    TurnEnd(ChessMove),
    /// The player is ready.
    Ack,
}

/// What a game sends to a player. Squares are in the frame of the player
/// that the message goes to.
#[derive(PartialEq, Eq, Structural, Clone, Copy, Debug)]
pub enum GameServerMsg {
    /// A turn begins: the player's own, or the opponent's.
    NewTurn(bool),
    /// The player's move was refused.
    Error(RuleViolation),
    /// The player's move was made; with the side and square of the piece
    /// that it captured, if any.
    MovedCorrectly(Option<CapturedPiece>),
    /// The opponent moved; with the side and square of the piece that the
    /// move captured, if any.
    PawnMove(ChessMove, Option<CapturedPiece>),
    /// The game is over: the player has won, or has lost.
    GameEnd(bool),
}

/// What the queue sends to a player.
#[derive(PartialEq, Eq, Structural, Clone, Copy, Debug)]
pub enum MatchmakingServerMsg {
    /// The player waits for an opponent.
    Searching,
    /// An opponent was found; the player plays the `color` side.
    Success { color: PieceColor },
    /// The player was not admitted.
    Error(QueueError),
    /// The player's game was dropped.
    GameDropped(SessionFault),
}

/// Any message to a player.
#[derive(PartialEq, Eq, Structural, Clone, Copy, Debug)]
pub enum ServerMsg {
    Matchmaking(MatchmakingServerMsg),
    Game(GameServerMsg),
}

} // verus!
