//! The failures that end a player's wait or a game.

use vstd::prelude::*;
use vstd::string::*;

verus! {

/// Why a player was not admitted to the queue.
#[derive(PartialEq, Eq, Structural, Clone, Copy, Debug)]
pub enum QueueError {
    /// The player is waiting in the queue already.
    AlreadyQueued,
}

impl QueueError {
    /// The sentence that tells a player of the error.
    pub open spec fn text(self) -> Seq<char> {
        match self {
            QueueError::AlreadyQueued => "User already in the queue"@,
        }
    }

    /// Returns the sentence that tells a player of the error.
    pub fn message(&self) -> (message: String)
        ensures
            message@ == self.text(),
    {
        match self {
            QueueError::AlreadyQueued => String::from_str("User already in the queue"),
        }
    }
}

/// Why a game was dropped before it had a winner.
#[derive(PartialEq, Eq, Structural, Clone, Copy, Debug)]
pub enum SessionFault {
    /// White did not acknowledge the game.
    NoWhiteAck,
    /// Black did not acknowledge the game.
    NoBlackAck,
    /// The player to move sent a frame that is no message of the game.
    Protocol,
    /// A player's channel failed.
    Transport,
    /// Neither king is on the board.
    NoKings,
    /// The record of the game could not be written.
    Persistence,
}

impl SessionFault {
    /// The sentence that tells the players of the fault.
    pub open spec fn text(self) -> Seq<char> {
        match self {
            SessionFault::NoWhiteAck => "No white player ack"@,
            SessionFault::NoBlackAck => "No black player ack"@,
            SessionFault::Protocol => "Incorrect WebSocket message type"@,
            SessionFault::Transport => "The connection to a player was lost"@,
            SessionFault::NoKings =>
                "There is no king on the field! The game encountered a critical error"@,
            SessionFault::Persistence => "The game could not be saved"@,
        }
    }

    /// Returns the sentence that tells the players of the fault.
    pub fn message(&self) -> (message: String)
        ensures
            message@ == self.text(),
    {
        let text = match self {
            SessionFault::NoWhiteAck => "No white player ack",
            SessionFault::NoBlackAck => "No black player ack",
            SessionFault::Protocol => "Incorrect WebSocket message type",
            SessionFault::Transport => "The connection to a player was lost",
            SessionFault::NoKings =>
                "There is no king on the field! The game encountered a critical error",
            SessionFault::Persistence => "The game could not be saved",
        };
        String::from_str(text)
    }
}

} // verus!
