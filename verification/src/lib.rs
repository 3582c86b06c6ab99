//! A two-player, turn-based chess session engine: move legality, turn
//! sequencing, win detection and the pairing of waiting players.
//!
//! The engine performs no input or output. The queue and the game answer
//! each event with their next state and with the actions that the caller is
//! to perform: messages to send, records to write.

pub mod chessboard;
pub mod coordinates;
pub mod fault;
pub mod gameplay;
pub mod matchmaking;
pub mod opponent_pair;
pub mod piece;
pub mod piece_color;
pub mod position;
pub mod rule_violation;
pub mod rules;
pub mod starting_position;
pub mod turns;
pub mod ws_messages;
