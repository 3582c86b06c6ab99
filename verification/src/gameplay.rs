//! A game between two paired players, as a state machine: each thing that a
//! player's channel delivers is an event, and each event is answered with
//! the next state and the actions to perform.

use crate::chessboard::{king_stands, ChessBoard};
use crate::fault::SessionFault;
use crate::opponent_pair::OpponentPair;
use crate::piece::{Piece, PieceType};
use crate::piece_color::PieceColor;
use crate::position::Position;
use crate::rule_violation::RuleViolation;
use crate::ws_messages::{
    CapturedPiece, ChessMove, GameClientMsg, GameServerMsg, MatchmakingServerMsg, ServerMsg,
};
use vstd::prelude::*;
use vstd::string::*;

verus! {

/// The record of a game, as far as the game itself reads it.
#[derive(PartialEq, Eq, Structural, Clone, Copy, Debug)]
pub struct Game {
    pub id: i32,
    pub player_black: i32,
    pub player_white: i32,
}

/// A line of the log of a game's turns, as it is written down.
#[derive(Clone, Debug, PartialEq, Eq)]
pub struct GameTurn {
    pub turn_nr: i32,
    pub game: i32,
    pub player_color: String,
    pub tile_from: String,
    pub tile_to: String,
    pub pawn_moved: String,
}

impl GameTurn {
    /// The line for a move between two squares of the board; a move that
    /// leaves the board has none.
    pub fn create(
        game: &Game,
        turn_nr: i32,
        player: PieceColor,
        from: Position,
        to: Position,
        piece_moved: PieceType,
    ) -> (line: Option<GameTurn>)
        ensures
            line is Some <==> from.on_board() && to.on_board(),
            line matches Some(turn) ==> {
                &&& turn.turn_nr == turn_nr
                &&& turn.game == game.id
                &&& turn.player_color@ == player.name()
                &&& turn.tile_from@ == from.tile()
                &&& turn.tile_to@ == to.tile()
                &&& turn.pawn_moved@ == piece_moved.name()
            },
    {
        let tile_from = match from.tile_name() {
            Some(name) => name,
            None => {
                return None;
            },
        };
        let tile_to = match to.tile_name() {
            Some(name) => name,
            None => {
                return None;
            },
        };
        Some(
            GameTurn {
                turn_nr,
                game: game.id,
                player_color: String::from_str(player.get_name()),
                tile_from,
                tile_to,
                pawn_moved: String::from_str(piece_moved.get_name()),
            },
        )
    }
}

/// Where a game stands.
#[derive(PartialEq, Eq, Structural, Clone, Copy, Debug)]
pub enum Phase {
    /// White has yet to acknowledge the game.
    AwaitingWhiteAck,
    /// White has acknowledged the game, Black has yet to.
    AwaitingBlackAck,
    /// The side that the pair of players names is to move.
    Active,
    /// A king was captured: the game has a winner.
    Finished,
    /// The game was given up on a fault.
    Dropped,
}

/// What the channel of the awaited player delivered.
#[derive(PartialEq, Eq, Structural, Clone, Copy, Debug)]
pub enum SessionEvent {
    /// A message of the game.
    Message(GameClientMsg),
    /// A frame that is no message of the game.
    Malformed,
    /// Nothing: the channel failed or was closed.
    Disconnected,
}

/// What a read from the channel of the awaited player gave.
#[derive(PartialEq, Eq, Structural, Clone, Copy, Debug)]
pub enum Received {
    /// A text frame that holds a message of the game.
    Parsed(GameClientMsg),
    /// A text frame that holds no message of the game.
    Unparsable,
    /// A frame that is no text.
    NotText,
    /// The frame that closes the channel.
    Closed,
    /// Nothing: the read failed.
    Failed,
}

impl SessionEvent {
    /// The event that a read amounts to: a message of the game is one, a
    /// channel that is closed or fails is lost, and any other frame is
    /// malformed.
    pub open spec fn of(received: Received) -> SessionEvent {
        match received {
            Received::Parsed(message) => SessionEvent::Message(message),
            Received::Unparsable => SessionEvent::Malformed,
            Received::NotText => SessionEvent::Malformed,
            Received::Closed => SessionEvent::Disconnected,
            Received::Failed => SessionEvent::Disconnected,
        }
    }

    /// Returns the event that a read amounts to.
    pub fn from_received(received: Received) -> (event: SessionEvent)
        ensures
            event == SessionEvent::of(received),
    {
        match received {
            Received::Parsed(message) => SessionEvent::Message(message),
            Received::Unparsable => SessionEvent::Malformed,
            Received::NotText => SessionEvent::Malformed,
            Received::Closed => SessionEvent::Disconnected,
            Received::Failed => SessionEvent::Disconnected,
        }
    }
}

/// One thing to do for a game. The actions that answer an event are to be
/// performed in their order, each one completed before the next begins. If
/// one cannot be performed, `failure` tells whether the game fails on it.
#[derive(PartialEq, Eq, Structural, Clone, Copy, Debug)]
pub enum SessionAction {
    /// Send `message` to the player of the `to` side; it must arrive.
    Send { to: PieceColor, message: ServerMsg },
    /// Send `message` to the player of the `to` side, and go on whether or
    /// not it can be delivered.
    TrySend { to: PieceColor, message: ServerMsg },
    /// Append a move to the log of the game's turns.
    RecordTurn {
        game: i32,
        turn_nr: i32,
        player_color: PieceColor,
        tile_from: Position,
        tile_to: Position,
        piece_moved: PieceType,
    },
    /// Stamp the record of the game with the time of its end.
    FinishGame { game: i32 },
    /// Add one to the score of a player.
    IncreaseScore { player: i32 },
    /// Delete the record of the game.
    RemoveGame { game: i32 },
}

impl SessionAction {
    /// What it means for the game that the action cannot be performed: a
    /// message that must arrive and does not is a fault of the transport,
    /// a record that cannot be written is a fault of persistence, and a
    /// message that is sent for what it is worth is no fault at all.
    pub open spec fn fault_if_undone(self) -> Option<SessionFault> {
        match self {
            SessionAction::Send { .. } => Some(SessionFault::Transport),
            SessionAction::TrySend { .. } => None,
            SessionAction::RecordTurn { .. } => Some(SessionFault::Persistence),
            SessionAction::FinishGame { .. } => Some(SessionFault::Persistence),
            SessionAction::IncreaseScore { .. } => Some(SessionFault::Persistence),
            SessionAction::RemoveGame { .. } => Some(SessionFault::Persistence),
        }
    }

    /// Returns the fault with which the game fails if the action cannot be
    /// performed; none if the game goes on regardless.
    pub fn failure(&self) -> (fault: Option<SessionFault>)
        ensures
            fault == self.fault_if_undone(),
    {
        match self {
            SessionAction::Send { .. } => Some(SessionFault::Transport),
            SessionAction::TrySend { .. } => None,
            SessionAction::RecordTurn { .. } => Some(SessionFault::Persistence),
            SessionAction::FinishGame { .. } => Some(SessionFault::Persistence),
            SessionAction::IncreaseScore { .. } => Some(SessionFault::Persistence),
            SessionAction::RemoveGame { .. } => Some(SessionFault::Persistence),
        }
    }
}

/// What an event did to a game.
#[derive(PartialEq, Eq, Structural, Clone, Copy, Debug)]
pub enum StepOutcome {
    /// Nothing.
    Ignored,
    /// White acknowledged the game.
    WhiteReady,
    /// Black acknowledged the game, and the first turn began.
    Started,
    /// The move was refused; the same player is to move.
    Rejected(RuleViolation),
    /// The move was made, and the turn passed to the other side.
    Moved,
    /// The move was made and left one king only: its side has won.
    Won(PieceColor),
    /// The game was given up.
    Dropped(SessionFault),
}

/// A game in progress.
#[derive(Debug)]
pub struct Gameplay<W> {
    pub game_data: Game,
    pub chess_board: ChessBoard,
    pub players: OpponentPair<W>,
    pub turn_number: i32,
    pub phase: Phase,
}

/// The number of the turn that follows; the count stops at `i32::MAX`.
pub open spec fn following_turn(turn_number: i32) -> i32 {
    if turn_number < i32::MAX {
        (turn_number + 1) as i32
    } else {
        turn_number
    }
}

/// How a game goes on when a move has left the given squares: with both
/// kings on the board the turn passes, with one the side of that king has
/// won, with none the game is at fault.
pub open spec fn outcome_of_kings(squares: Map<Position, Piece>) -> StepOutcome {
    if king_stands(squares, PieceColor::White) {
        if king_stands(squares, PieceColor::Black) {
            StepOutcome::Moved
        } else {
            StepOutcome::Won(PieceColor::White)
        }
    } else {
        if king_stands(squares, PieceColor::Black) {
            StepOutcome::Won(PieceColor::Black)
        } else {
            StepOutcome::Dropped(SessionFault::NoKings)
        }
    }
}

/// What tells both players that the turn of the `active` side begins.
pub open spec fn turn_notices(active: PieceColor) -> Seq<SessionAction> {
    seq![
        SessionAction::Send {
            to: active,
            message: ServerMsg::Game(GameServerMsg::NewTurn(true)),
        },
        SessionAction::Send {
            to: active.opposite(),
            message: ServerMsg::Game(GameServerMsg::NewTurn(false)),
        },
    ]
}

/// What ends a game that the `winner` side has won: both players are told,
/// whether or not they can be reached, the record of the game is stamped,
/// and the winner's score grows by one.
pub open spec fn win_actions(winner: PieceColor, game: i32, winner_id: i32) -> Seq<SessionAction> {
    seq![
        SessionAction::TrySend {
            to: winner,
            message: ServerMsg::Game(GameServerMsg::GameEnd(true)),
        },
        SessionAction::TrySend {
            to: winner.opposite(),
            message: ServerMsg::Game(GameServerMsg::GameEnd(false)),
        },
        SessionAction::FinishGame { game },
        SessionAction::IncreaseScore { player: winner_id },
    ]
}

/// What gives a game up: both players are told, whether or not they can be
/// reached, and the record of the game is deleted.
pub open spec fn drop_actions(fault: SessionFault, game: i32) -> Seq<SessionAction> {
    seq![
        SessionAction::TrySend {
            to: PieceColor::White,
            message: ServerMsg::Matchmaking(MatchmakingServerMsg::GameDropped(fault)),
        },
        SessionAction::TrySend {
            to: PieceColor::Black,
            message: ServerMsg::Matchmaking(MatchmakingServerMsg::GameDropped(fault)),
        },
        SessionAction::RemoveGame { game },
    ]
}

impl<W> Gameplay<W> {
    /// The validity of a game: its board is valid.
    pub open spec fn wf(&self) -> bool {
        self.chess_board.wf()
    }

    /// The side that is to move.
    pub open spec fn active_color(&self) -> PieceColor {
        self.players.current_player_color
    }

    /// The side whose player the game waits for, while it waits for one.
    pub open spec fn awaited(&self) -> Option<PieceColor> {
        match self.phase {
            Phase::AwaitingWhiteAck => Some(PieceColor::White),
            Phase::AwaitingBlackAck => Some(PieceColor::Black),
            Phase::Active => Some(self.active_color()),
            Phase::Finished => None,
            Phase::Dropped => None,
        }
    }

    /// The move that the player to move submits, in the board's frame.
    pub open spec fn in_board_frame(&self, piece_move: ChessMove) -> ChessMove {
        piece_move.seen_by(self.active_color())
    }

    /// What forbids the move that the player to move submits, if anything.
    pub open spec fn refusal(&self, piece_move: ChessMove) -> Option<RuleViolation> {
        if !piece_move.on_board() {
            Some(RuleViolation::OffBoard)
        } else {
            self.chess_board.move_violation(
                self.active_color(),
                self.in_board_frame(piece_move).position_from,
                self.in_board_frame(piece_move).position_to,
            )
        }
    }

    /// The squares of the board after the move that the player to move
    /// submits.
    pub open spec fn squares_after(&self, piece_move: ChessMove) -> Map<Position, Piece> {
        self.chess_board.after_move(
            self.in_board_frame(piece_move).position_from,
            self.in_board_frame(piece_move).position_to,
        )
    }

    /// The piece that the move captures, if any, in the board's frame.
    pub open spec fn capture(&self, piece_move: ChessMove) -> Option<CapturedPiece> {
        match self.chess_board.piece_on(self.in_board_frame(piece_move).position_to) {
            Some(piece) => Some(
                CapturedPiece {
                    color: piece.color,
                    position: self.in_board_frame(piece_move).position_to,
                },
            ),
            None => None,
        }
    }

    /// The capture as the player of the `color` side is told of it.
    pub open spec fn capture_seen_by(&self, piece_move: ChessMove, color: PieceColor) -> Option<
        CapturedPiece,
    > {
        match self.capture(piece_move) {
            Some(captured) => Some(captured.seen_by(color)),
            None => None,
        }
    }

    /// What follows a move that was made: it is written to the log under the
    /// number of the turn, the mover is told that it was made, and the
    /// opponent is told the move, each in the player's own frame.
    pub open spec fn move_actions(&self, piece_move: ChessMove) -> Seq<SessionAction> {
        let color = self.active_color();
        let on_board = self.in_board_frame(piece_move);
        seq![
            SessionAction::RecordTurn {
                game: self.game_data.id,
                turn_nr: self.turn_number,
                player_color: color,
                tile_from: on_board.position_from,
                tile_to: on_board.position_to,
                piece_moved: self.chess_board@[on_board.position_from].piece_type,
            },
            SessionAction::Send {
                to: color,
                message: ServerMsg::Game(
                    GameServerMsg::MovedCorrectly(self.capture_seen_by(piece_move, color)),
                ),
            },
            SessionAction::Send {
                to: color.opposite(),
                message: ServerMsg::Game(
                    GameServerMsg::PawnMove(
                        on_board.seen_by(color.opposite()),
                        self.capture_seen_by(piece_move, color.opposite()),
                    ),
                ),
            },
        ]
    }

    /// What the move that the player to move submits does to the game.
    pub open spec fn outcome_of_move(&self, piece_move: ChessMove) -> StepOutcome {
        match self.refusal(piece_move) {
            Some(violation) => StepOutcome::Rejected(violation),
            None => outcome_of_kings(self.squares_after(piece_move)),
        }
    }

    /// What an event does to the game. Before the game is active, the
    /// awaited player must acknowledge it, White first. While it is active,
    /// an acknowledgement is ignored, a move is tried, and anything else
    /// gives the game up. Once the game is over nothing happens any more.
    pub open spec fn outcome(&self, event: SessionEvent) -> StepOutcome {
        match self.phase {
            Phase::AwaitingWhiteAck => if event == SessionEvent::Message(GameClientMsg::Ack) {
                StepOutcome::WhiteReady
            } else {
                StepOutcome::Dropped(SessionFault::NoWhiteAck)
            },
            Phase::AwaitingBlackAck => if event == SessionEvent::Message(GameClientMsg::Ack) {
                StepOutcome::Started
            } else {
                StepOutcome::Dropped(SessionFault::NoBlackAck)
            },
            Phase::Active => match event {
                SessionEvent::Message(GameClientMsg::Ack) => StepOutcome::Ignored,
                SessionEvent::Message(GameClientMsg::TurnEnd(piece_move)) => self.outcome_of_move(
                    piece_move,
                ),
                SessionEvent::Malformed => StepOutcome::Dropped(SessionFault::Protocol),
                SessionEvent::Disconnected => StepOutcome::Dropped(SessionFault::Transport),
            },
            Phase::Finished => StepOutcome::Ignored,
            Phase::Dropped => StepOutcome::Ignored,
        }
    }

    /// Whether the event is a move that is made.
    pub open spec fn accepts(&self, event: SessionEvent) -> bool {
        &&& self.phase == Phase::Active
        &&& event matches SessionEvent::Message(GameClientMsg::TurnEnd(piece_move))
        &&& self.refusal(piece_move) is None
    }

    /// The move that an event holds, if it holds one.
    pub open spec fn move_of(event: SessionEvent) -> ChessMove {
        match event {
            SessionEvent::Message(GameClientMsg::TurnEnd(piece_move)) => piece_move,
            _ => arbitrary(),
        }
    }

    /// Where the game stands after an event.
    pub open spec fn phase_after(&self, event: SessionEvent) -> Phase {
        match self.outcome(event) {
            StepOutcome::Ignored => self.phase,
            StepOutcome::WhiteReady => Phase::AwaitingBlackAck,
            StepOutcome::Started => Phase::Active,
            StepOutcome::Rejected(_) => self.phase,
            StepOutcome::Moved => Phase::Active,
            StepOutcome::Won(_) => Phase::Finished,
            StepOutcome::Dropped(_) => Phase::Dropped,
        }
    }

    /// The side that is to move after an event: the other side after a move
    /// that passed the turn, the same side after anything else.
    pub open spec fn color_after(&self, event: SessionEvent) -> PieceColor {
        if self.outcome(event) == StepOutcome::Moved {
            self.active_color().opposite()
        } else {
            self.active_color()
        }
    }

    /// The number of the turn after an event: every move that is made
    /// begins a new turn.
    pub open spec fn turn_number_after(&self, event: SessionEvent) -> i32 {
        if self.accepts(event) {
            following_turn(self.turn_number)
        } else {
            self.turn_number
        }
    }

    /// The squares of the board after an event.
    pub open spec fn board_after(&self, event: SessionEvent) -> Map<Position, Piece> {
        if self.accepts(event) {
            self.squares_after(Self::move_of(event))
        } else {
            self.chess_board@
        }
    }

    /// The actions that answer an event.
    pub open spec fn actions_for(&self, event: SessionEvent) -> Seq<SessionAction> {
        match self.outcome(event) {
            StepOutcome::Ignored => seq![],
            StepOutcome::WhiteReady => seq![],
            StepOutcome::Started => turn_notices(self.active_color()),
            StepOutcome::Rejected(violation) => seq![
                SessionAction::Send {
                    to: self.active_color(),
                    message: ServerMsg::Game(GameServerMsg::Error(violation)),
                },
            ],
            StepOutcome::Moved => self.move_actions(Self::move_of(event)) + turn_notices(
                self.active_color().opposite(),
            ),
            StepOutcome::Won(winner) => self.move_actions(Self::move_of(event)) + win_actions(
                winner,
                self.game_data.id,
                self.players.player_of(winner).id,
            ),
            StepOutcome::Dropped(fault) => if self.accepts(event) {
                self.move_actions(Self::move_of(event)) + drop_actions(fault, self.game_data.id)
            } else {
                drop_actions(fault, self.game_data.id)
            },
        }
    }

    /// A game between the two players of a pair, on a new board, before
    /// either has acknowledged it.
    pub fn new(game_data: Game, players: OpponentPair<W>) -> (session: Gameplay<W>)
        ensures
            session.wf(),
            session.game_data == game_data,
            session.players == players,
            session.chess_board@ == crate::starting_position::starting_layout(),
            session.turn_number == 1,
            session.phase == Phase::AwaitingWhiteAck,
    {
        Gameplay {
            game_data,
            chess_board: ChessBoard::new(),
            players,
            turn_number: 1,
            phase: Phase::AwaitingWhiteAck,
        }
    }

    /// The side whose player the game waits for; none once the game is over.
    pub fn next_player(&self) -> (awaited: Option<PieceColor>)
        ensures
            awaited == self.awaited(),
    {
        match self.phase {
            Phase::AwaitingWhiteAck => Some(PieceColor::White),
            Phase::AwaitingBlackAck => Some(PieceColor::Black),
            Phase::Active => Some(self.players.current_player_color),
            Phase::Finished => None,
            Phase::Dropped => None,
        }
    }

    /// Tells whether the game is over: won, or given up.
    pub fn is_over(&self) -> (over: bool)
        ensures
            over == (self.awaited() is None),
    {
        match self.phase {
            Phase::Finished => true,
            Phase::Dropped => true,
            _ => false,
        }
    }

    /// Tries the move that the player to move submits, in that player's own
    /// frame. A move that is made begins a new turn, and the actions that
    /// follow it are returned; a move that is refused changes nothing.
    pub fn handle_turn_end(&mut self, piece_move: ChessMove) -> (made: Result<
        Vec<SessionAction>,
        RuleViolation,
    >)
        requires
            old(self).wf(),
        ensures
            final(self).wf(),
            final(self).game_data == old(self).game_data,
            final(self).players == old(self).players,
            final(self).phase == old(self).phase,
            match made {
                Ok(actions) => {
                    &&& old(self).refusal(piece_move) is None
                    &&& actions@ == old(self).move_actions(piece_move)
                    &&& final(self).chess_board@ == old(self).squares_after(piece_move)
                    &&& final(self).turn_number == following_turn(old(self).turn_number)
                },
                Err(violation) => {
                    &&& old(self).refusal(piece_move) == Some(violation)
                    &&& final(self).chess_board == old(self).chess_board
                    &&& final(self).turn_number == old(self).turn_number
                },
            },
    {
        if !piece_move.is_on_board() {
            return Err(RuleViolation::OffBoard);
        }
        let player_color = self.players.current_player_color;
        let on_board = piece_move.maybe_invert(player_color);
        let (piece_type, removed_piece_maybe) = match self.chess_board.move_piece(
            player_color,
            on_board.position_from,
            on_board.position_to,
        ) {
            Ok(moved) => moved,
            Err(violation) => {
                return Err(violation);
            },
        };
        let removed_piece_to = match removed_piece_maybe {
            Some(piece) => Some(
                CapturedPiece { color: piece.color, position: on_board.position_to },
            ),
            None => None,
        };
        let told_mover = match removed_piece_to {
            Some(captured) => Some(captured.maybe_invert(player_color)),
            None => None,
        };
        let told_opponent = match removed_piece_to {
            Some(captured) => Some(captured.maybe_invert(player_color.invert())),
            None => None,
        };
        let mut actions: Vec<SessionAction> = Vec::new();
        actions.push(
            SessionAction::RecordTurn {
                game: self.game_data.id,
                turn_nr: self.turn_number,
                player_color,
                tile_from: on_board.position_from,
                tile_to: on_board.position_to,
                piece_moved: piece_type,
            },
        );
        actions.push(
            SessionAction::Send {
                to: player_color,
                message: ServerMsg::Game(GameServerMsg::MovedCorrectly(told_mover)),
            },
        );
        actions.push(
            SessionAction::Send {
                to: player_color.invert(),
                message: ServerMsg::Game(
                    GameServerMsg::PawnMove(
                        on_board.maybe_invert(player_color.invert()),
                        told_opponent,
                    ),
                ),
            },
        );
        if self.turn_number < i32::MAX {
            self.turn_number += 1;
        }
        assert(actions@ =~= old(self).move_actions(piece_move));
        Ok(actions)
    }

    /// Looks for the kings: the side of the only king on the board has won,
    /// with both kings on the board nobody has, and a board without a king
    /// is a fault.
    pub fn handle_win(&self) -> (winner: Result<Option<PieceColor>, SessionFault>)
        requires
            self.wf(),
        ensures
            match winner {
                Ok(Some(color)) => outcome_of_kings(self.chess_board@) == StepOutcome::Won(color),
                Ok(None) => outcome_of_kings(self.chess_board@) == StepOutcome::Moved,
                Err(fault) => outcome_of_kings(self.chess_board@) == StepOutcome::Dropped(fault),
            },
    {
        let white_king = self.chess_board.find_king(PieceColor::White);
        let black_king = self.chess_board.find_king(PieceColor::Black);
        match (white_king, black_king) {
            (None, Some(_)) => Ok(Some(PieceColor::Black)),
            (Some(_), None) => Ok(Some(PieceColor::White)),
            (Some(_), Some(_)) => Ok(None),
            (None, None) => Err(SessionFault::NoKings),
        }
    }

    /// Passes the turn to the other side and returns what tells both
    /// players of it.
    pub fn switch_turns(&mut self) -> (actions: Vec<SessionAction>)
        ensures
            final(self).players == old(self).players.switched(),
            final(self).game_data == old(self).game_data,
            final(self).chess_board == old(self).chess_board,
            final(self).turn_number == old(self).turn_number,
            final(self).phase == old(self).phase,
            actions@ == turn_notices(old(self).active_color().opposite()),
    {
        self.players.switch_active();
        let active = self.players.current_player_color;
        let mut actions: Vec<SessionAction> = Vec::new();
        Self::push_turn_notices(&mut actions, active);
        actions
    }

    /// Appends what tells both players that the turn of the `active` side
    /// begins.
    fn push_turn_notices(actions: &mut Vec<SessionAction>, active: PieceColor)
        ensures
            final(actions)@ == old(actions)@ + turn_notices(active),
    {
        actions.push(
            SessionAction::Send {
                to: active,
                message: ServerMsg::Game(GameServerMsg::NewTurn(true)),
            },
        );
        actions.push(
            SessionAction::Send {
                to: active.invert(),
                message: ServerMsg::Game(GameServerMsg::NewTurn(false)),
            },
        );
        assert(actions@ =~= old(actions)@ + turn_notices(active));
    }

    /// Appends what gives the game up.
    fn push_drop_actions(actions: &mut Vec<SessionAction>, fault: SessionFault, game: i32)
        ensures
            final(actions)@ == old(actions)@ + drop_actions(fault, game),
    {
        actions.push(
            SessionAction::TrySend {
                to: PieceColor::White,
                message: ServerMsg::Matchmaking(MatchmakingServerMsg::GameDropped(fault)),
            },
        );
        actions.push(
            SessionAction::TrySend {
                to: PieceColor::Black,
                message: ServerMsg::Matchmaking(MatchmakingServerMsg::GameDropped(fault)),
            },
        );
        actions.push(SessionAction::RemoveGame { game });
        assert(actions@ =~= old(actions)@ + drop_actions(fault, game));
    }

    /// Appends what ends a game that the `winner` side has won.
    fn push_win_actions(
        actions: &mut Vec<SessionAction>,
        winner: PieceColor,
        game: i32,
        winner_id: i32,
    )
        ensures
            final(actions)@ == old(actions)@ + win_actions(winner, game, winner_id),
    {
        actions.push(
            SessionAction::TrySend {
                to: winner,
                message: ServerMsg::Game(GameServerMsg::GameEnd(true)),
            },
        );
        actions.push(
            SessionAction::TrySend {
                to: winner.invert(),
                message: ServerMsg::Game(GameServerMsg::GameEnd(false)),
            },
        );
        actions.push(SessionAction::FinishGame { game });
        actions.push(SessionAction::IncreaseScore { player: winner_id });
        assert(actions@ =~= old(actions)@ + win_actions(winner, game, winner_id));
    }

    /// Gives the game up and returns what that takes, unless it was given up
    /// before. This is how the game ends when an action could not be
    /// performed.
    pub fn fail(&mut self, fault: SessionFault) -> (actions: Vec<SessionAction>)
        ensures
            final(self).phase == Phase::Dropped,
            final(self).game_data == old(self).game_data,
            final(self).players == old(self).players,
            final(self).chess_board == old(self).chess_board,
            final(self).turn_number == old(self).turn_number,
            actions@ == if old(self).phase == Phase::Dropped {
                Seq::<SessionAction>::empty()
            } else {
                drop_actions(fault, old(self).game_data.id)
            },
    {
        let mut actions: Vec<SessionAction> = Vec::new();
        if self.phase != Phase::Dropped {
            Self::push_drop_actions(&mut actions, fault, self.game_data.id);
            self.phase = Phase::Dropped;
        }
        actions
    }

    /// Answers an event from the awaited player with the next state of the
    /// game and the actions to perform.
    pub fn step(&mut self, event: SessionEvent) -> (actions: Vec<SessionAction>)
        requires
            old(self).wf(),
        ensures
            final(self).wf(),
            final(self).game_data == old(self).game_data,
            final(self).players.white_player == old(self).players.white_player,
            final(self).players.black_player == old(self).players.black_player,
            final(self).phase == old(self).phase_after(event),
            final(self).active_color() == old(self).color_after(event),
            final(self).turn_number == old(self).turn_number_after(event),
            final(self).chess_board@ == old(self).board_after(event),
            !old(self).accepts(event) ==> final(self).chess_board == old(self).chess_board,
            actions@ == old(self).actions_for(event),
    {
        let mut actions: Vec<SessionAction> = Vec::new();
        match self.phase {
            Phase::AwaitingWhiteAck => {
                match event {
                    SessionEvent::Message(GameClientMsg::Ack) => {
                        self.phase = Phase::AwaitingBlackAck;
                    },
                    _ => {
                        actions = self.fail(SessionFault::NoWhiteAck);
                    },
                }
            },
            Phase::AwaitingBlackAck => {
                match event {
                    SessionEvent::Message(GameClientMsg::Ack) => {
                        self.phase = Phase::Active;
                        Self::push_turn_notices(&mut actions, self.players.current_player_color);
                    },
                    _ => {
                        actions = self.fail(SessionFault::NoBlackAck);
                    },
                }
            },
            Phase::Active => {
                match event {
                    SessionEvent::Message(GameClientMsg::TurnEnd(piece_move)) => {
                        let mover = self.players.current_player_color;
                        match self.handle_turn_end(piece_move) {
                            Err(violation) => {
                                actions.push(
                                    SessionAction::Send {
                                        to: mover,
                                        message: ServerMsg::Game(GameServerMsg::Error(violation)),
                                    },
                                );
                            },
                            Ok(made) => {
                                actions = made;
                                match self.handle_win() {
                                    Ok(None) => {
                                        self.players.switch_active();
                                        Self::push_turn_notices(&mut actions, mover.invert());
                                    },
                                    Ok(Some(winner)) => {
                                        let winner_id = self.players.get(winner).id;
                                        Self::push_win_actions(
                                            &mut actions,
                                            winner,
                                            self.game_data.id,
                                            winner_id,
                                        );
                                        self.phase = Phase::Finished;
                                    },
                                    Err(fault) => {
                                        Self::push_drop_actions(
                                            &mut actions,
                                            fault,
                                            self.game_data.id,
                                        );
                                        self.phase = Phase::Dropped;
                                    },
                                }
                            },
                        }
                    },
                    SessionEvent::Message(GameClientMsg::Ack) => {},
                    SessionEvent::Malformed => {
                        actions = self.fail(SessionFault::Protocol);
                    },
                    SessionEvent::Disconnected => {
                        actions = self.fail(SessionFault::Transport);
                    },
                }
            },
            Phase::Finished => {},
            Phase::Dropped => {},
        }
        assert(actions@ =~= old(self).actions_for(event));
        actions
    }
}

} // verus!
