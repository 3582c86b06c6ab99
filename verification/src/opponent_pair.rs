//! The two players of a game and the side that is to move.

use crate::matchmaking::MatchmakingPlayer;
use crate::piece_color::PieceColor;
use vstd::prelude::*;

verus! {

/// A player of a game: the player's id and the player's channel, which the
/// game hands on as it is.
#[derive(Debug)]
pub struct GamePlayer<W> {
    pub id: i32,
    pub ws: W,
}

impl<W> GamePlayer<W> {
    /// A player with the given id and channel.
    pub fn new(id: i32, ws: W) -> (player: GamePlayer<W>)
        ensures
            player == (GamePlayer { id, ws }),
    {
        GamePlayer { id, ws }
    }
}

/// The two players of a game. Who plays which side never changes; only the
/// side that is to move does.
#[derive(Debug)]
pub struct OpponentPair<W> {
    pub white_player: GamePlayer<W>,
    pub black_player: GamePlayer<W>,
    pub current_player_color: PieceColor,
}

impl<W> OpponentPair<W> {
    /// The player of the `color` side.
    pub open spec fn player_of(&self, color: PieceColor) -> GamePlayer<W> {
        match color {
            PieceColor::White => self.white_player,
            PieceColor::Black => self.black_player,
        }
    }

    /// The player who is to move.
    pub open spec fn active(&self) -> GamePlayer<W> {
        self.player_of(self.current_player_color)
    }

    /// The player who waits for the other to move.
    pub open spec fn passive(&self) -> GamePlayer<W> {
        self.player_of(self.current_player_color.opposite())
    }

    /// The same two players with the other side to move.
    pub open spec fn switched(&self) -> OpponentPair<W> {
        OpponentPair {
            white_player: self.white_player,
            black_player: self.black_player,
            current_player_color: self.current_player_color.opposite(),
        }
    }

    /// The pair of two players who leave the queue, with White to move.
    pub fn new<E>(white_player: MatchmakingPlayer<W, E>, black_player: MatchmakingPlayer<W, E>) -> (pair:
        OpponentPair<W>)
        ensures
            pair == (OpponentPair {
                white_player: GamePlayer { id: white_player.id, ws: white_player.ws },
                black_player: GamePlayer { id: black_player.id, ws: black_player.ws },
                current_player_color: PieceColor::White,
            }),
    {
        OpponentPair {
            white_player: GamePlayer::new(white_player.id, white_player.ws),
            black_player: GamePlayer::new(black_player.id, black_player.ws),
            current_player_color: PieceColor::White,
        }
    }

    /// The player of the `color` side.
    pub fn get(&self, color: PieceColor) -> (player: &GamePlayer<W>)
        ensures
            *player == self.player_of(color),
    {
        match color {
            PieceColor::White => &self.white_player,
            PieceColor::Black => &self.black_player,
        }
    }

    /// The player who is to move.
    pub fn get_active(&self) -> (player: &GamePlayer<W>)
        ensures
            *player == self.active(),
    {
        match self.current_player_color {
            PieceColor::White => &self.white_player,
            PieceColor::Black => &self.black_player,
        }
    }

    /// The player who waits for the other to move.
    pub fn get_passive(&self) -> (player: &GamePlayer<W>)
        ensures
            *player == self.passive(),
    {
        match self.current_player_color {
            PieceColor::White => &self.black_player,
            PieceColor::Black => &self.white_player,
        }
    }

    /// Passes the move to the other side.
    pub fn switch_active(&mut self) -> (pair: &mut Self)
        ensures
            *pair == old(self).switched(),
            *final(self) == *final(pair),
    {
        self.current_player_color = self.current_player_color.invert();
        self
    }
}

} // verus!
