//! What holds of every step of every game.

use crate::chessboard::{king_stands, lemma_square_holds_piece};
use crate::gameplay::{Gameplay, Phase, SessionAction, SessionEvent, StepOutcome};
use crate::piece::PieceType;
use crate::piece_color::PieceColor;
use crate::position::Position;
use crate::ws_messages::{ChessMove, GameServerMsg, ServerMsg};
use vstd::prelude::*;

verus! {

/// Whether the action tells a player that the player's own turn begins.
pub open spec fn gives_the_turn(action: SessionAction) -> bool {
    action matches SessionAction::Send { message, .. } && message == ServerMsg::Game(
        GameServerMsg::NewTurn(true),
    )
}

/// Whether the action adds to a player's score.
pub open spec fn raises_a_score(action: SessionAction) -> bool {
    action is IncreaseScore
}

/// One player at a time has the turn: the actions that answer an event tell
/// at most one player that the player's turn begins, and when they do, that
/// player's side is the one to move from then on, and the next action tells
/// the other player that the turn is the opponent's.
pub proof fn one_player_has_the_turn<W>(session: Gameplay<W>, event: SessionEvent)
    requires
        session.wf(),
    ensures
        forall|i: int, j: int|
            0 <= i < session.actions_for(event).len() && 0 <= j < session.actions_for(event).len()
                && gives_the_turn(#[trigger] session.actions_for(event)[i]) && gives_the_turn(
                #[trigger] session.actions_for(event)[j],
            ) ==> i == j,
        forall|i: int|
            0 <= i < session.actions_for(event).len() && gives_the_turn(
                #[trigger] session.actions_for(event)[i],
            ) ==> {
                &&& session.phase_after(event) == Phase::Active
                &&& session.actions_for(event)[i] == (SessionAction::Send {
                    to: session.color_after(event),
                    message: ServerMsg::Game(GameServerMsg::NewTurn(true)),
                })
                &&& i + 1 < session.actions_for(event).len()
                &&& session.actions_for(event)[i + 1] == (SessionAction::Send {
                    to: session.color_after(event).opposite(),
                    message: ServerMsg::Game(GameServerMsg::NewTurn(false)),
                })
            },
{
}

/// The turn passes with every move that is made and leaves both kings on
/// the board, and with nothing else: after a refused move the same side is
/// to move on the same board in the same turn, and no player is told of a
/// new turn.
pub proof fn turn_passes_with_accepted_moves_only<W>(session: Gameplay<W>, event: SessionEvent)
    requires
        session.wf(),
    ensures
        session.outcome(event) == StepOutcome::Moved ==> session.accepts(event)
            && session.color_after(event) == session.active_color().opposite()
            && session.phase_after(event) == Phase::Active,
        session.color_after(event) != session.active_color() ==> session.outcome(event)
            == StepOutcome::Moved,
        session.outcome(event) is Rejected ==> {
            &&& !session.accepts(event)
            &&& session.color_after(event) == session.active_color()
            &&& session.phase_after(event) == session.phase
            &&& session.board_after(event) == session.chess_board@
            &&& session.turn_number_after(event) == session.turn_number
            &&& forall|i: int|
                0 <= i < session.actions_for(event).len() ==> !gives_the_turn(
                    #[trigger] session.actions_for(event)[i],
                )
        },
{
}

/// A game ends with a winner if and only if a move is made that leaves
/// exactly one king on the board. The side of that king has won: its player
/// is told of the victory and the other player of the defeat, and the score
/// of the winner, and of nobody else, is raised once.
pub proof fn game_ends_when_one_king_remains<W>(session: Gameplay<W>, event: SessionEvent)
    requires
        session.wf(),
        session.phase != Phase::Finished,
    ensures
        session.phase_after(event) == Phase::Finished <==> session.accepts(event) && (king_stands(
            session.board_after(event),
            PieceColor::White,
        ) != king_stands(session.board_after(event), PieceColor::Black)),
        forall|winner: PieceColor|
            session.outcome(event) == StepOutcome::Won(winner) ==> {
                let actions = session.actions_for(event);
                &&& session.phase_after(event) == Phase::Finished
                &&& king_stands(session.board_after(event), winner)
                &&& !king_stands(session.board_after(event), winner.opposite())
                &&& actions.len() == 7
                &&& actions[3] == (SessionAction::TrySend {
                    to: winner,
                    message: ServerMsg::Game(GameServerMsg::GameEnd(true)),
                })
                &&& actions[4] == (SessionAction::TrySend {
                    to: winner.opposite(),
                    message: ServerMsg::Game(GameServerMsg::GameEnd(false)),
                })
                &&& actions[6] == (SessionAction::IncreaseScore {
                    player: session.players.player_of(winner).id,
                })
                &&& forall|i: int| 0 <= i < 6 ==> !raises_a_score(#[trigger] actions[i])
            },
        session.phase_after(event) != Phase::Finished ==> forall|i: int|
            0 <= i < session.actions_for(event).len() ==> !raises_a_score(
                #[trigger] session.actions_for(event)[i],
            ),
{
}

/// A move never costs the mover's own king: if the side to move has its
/// king before a move that is made, it has it afterwards, so that the move
/// passes the turn or wins the game for the mover.
pub proof fn mover_keeps_own_king<W>(session: Gameplay<W>, event: SessionEvent)
    requires
        session.wf(),
        session.accepts(event),
        king_stands(session.chess_board@, session.active_color()),
    ensures
        king_stands(session.board_after(event), session.active_color()),
        session.outcome(event) == StepOutcome::Moved || session.outcome(event) == StepOutcome::Won(
            session.active_color(),
        ),
{
    let color = session.active_color();
    let board = session.chess_board;
    let piece_move = Gameplay::<W>::move_of(event);
    let from = session.in_board_frame(piece_move).position_from;
    let to = session.in_board_frame(piece_move).position_to;
    let after = session.board_after(event);
    let throne = choose|at: Position| #[trigger]
        board@.contains_key(at) && board@[at].color == color && board@[at].piece_type
            == PieceType::King;
    lemma_square_holds_piece(board.pieces@, from);
    if throne == from {
        assert(after.contains_key(to) && after[to].color == color && after[to].piece_type
            == PieceType::King);
    } else {
        assert(throne != to);
        assert(after.contains_key(throne) && after[throne].color == color
            && after[throne].piece_type == PieceType::King);
    }
}

/// Each player is told of a move in the player's own frame: the mover is
/// answered about the squares as the mover named them, and the opponent is
/// told the same move turned round.
pub proof fn each_player_is_told_in_own_frame<W>(session: Gameplay<W>, piece_move: ChessMove)
    requires
        session.refusal(piece_move) is None,
    ensures
        session.in_board_frame(piece_move).seen_by(session.active_color()) == piece_move,
        session.in_board_frame(piece_move).seen_by(session.active_color().opposite())
            == piece_move.inverted(),
        session.capture_seen_by(piece_move, session.active_color()) matches Some(captured)
            ==> captured.position == piece_move.position_to,
        session.capture_seen_by(piece_move, session.active_color().opposite()) matches Some(
            captured,
        ) ==> captured.position == piece_move.position_to.inverted(),
{
}

/// A turn is settled before the next begins: when a move passes the turn,
/// it is written to the log and told to both players before either is told
/// of the new turn.
pub proof fn turn_is_settled_before_the_next_begins<W>(session: Gameplay<W>, event: SessionEvent)
    requires
        session.wf(),
        session.outcome(event) == StepOutcome::Moved,
    ensures
        session.actions_for(event).len() == 5,
        session.actions_for(event)[0] is RecordTurn,
        session.actions_for(event)[1] == (SessionAction::Send {
            to: session.active_color(),
            message: ServerMsg::Game(
                GameServerMsg::MovedCorrectly(
                    session.capture_seen_by(
                        Gameplay::<W>::move_of(event),
                        session.active_color(),
                    ),
                ),
            ),
        }),
        session.actions_for(event)[2] matches SessionAction::Send { to, message } && to
            == session.active_color().opposite() && message matches ServerMsg::Game(
            GameServerMsg::PawnMove(_, _),
        ),
        gives_the_turn(session.actions_for(event)[3]),
        forall|i: int| 0 <= i < 3 ==> !gives_the_turn(#[trigger] session.actions_for(event)[i]),
{
}

} // verus!
