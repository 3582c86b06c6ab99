use szachus::fault::QueueError;
use szachus::matchmaking::{
    Admission, Inbound, MatchmakingAction, MatchmakingPlayer, NewGame, Party, UserQueue,
    WaitingStep,
};
use szachus::opponent_pair::OpponentPair;
use szachus::piece_color::PieceColor;
use szachus::ws_messages::MatchmakingServerMsg;

fn player(id: i32) -> MatchmakingPlayer<String, u32> {
    MatchmakingPlayer::new(id, format!("channel-{id}"), id as u32 + 100)
}

fn ids(queue: &UserQueue<String, u32>) -> Vec<i32> {
    queue.state.iter().map(|p| p.id).collect()
}

#[test]
fn first_player_waits_second_is_paired() {
    let mut queue: UserQueue<String, u32> = UserQueue::new();
    let first = queue.join(player(10));
    assert!(matches!(first, Admission::Waiting));
    assert_eq!(
        first.actions(),
        vec![MatchmakingAction::Notify {
            party: Party::Newcomer,
            notice: MatchmakingServerMsg::Searching,
        }]
    );
    assert_eq!(ids(&queue), vec![10]);
    let second = queue.join(player(20));
    assert_eq!(
        second.actions(),
        vec![
            MatchmakingAction::RecordGame {
                game: NewGame { player_black: 20, player_white: 10 },
            },
            MatchmakingAction::Notify {
                party: Party::Newcomer,
                notice: MatchmakingServerMsg::Success { color: PieceColor::Black },
            },
            MatchmakingAction::Notify {
                party: Party::Waiter,
                notice: MatchmakingServerMsg::Success { color: PieceColor::White },
            },
            MatchmakingAction::CancelSearch { party: Party::Newcomer },
            MatchmakingAction::CancelSearch { party: Party::Waiter },
            MatchmakingAction::StartGame,
        ]
    );
    match second {
        Admission::Matched { white, black } => {
            assert_eq!(white.id, 10);
            assert_eq!(white.ws, "channel-10");
            assert_eq!(white.echo, 110);
            assert_eq!(black.id, 20);
            assert_eq!(black.ws, "channel-20");
            assert_eq!(black.echo, 120);
        },
        other => panic!("expected a pair, got {other:?}"),
    }
    assert!(ids(&queue).is_empty());
}

#[test]
fn waiting_player_is_not_queued_twice() {
    let mut queue: UserQueue<String, u32> = UserQueue::new();
    queue.push(player(1));
    queue.push(player(2));
    let again = queue.join(MatchmakingPlayer::new(2, "again".to_string(), 7));
    assert_eq!(
        again.actions(),
        vec![
            MatchmakingAction::CancelSearch { party: Party::Newcomer },
            MatchmakingAction::Notify {
                party: Party::Newcomer,
                notice: MatchmakingServerMsg::Error(QueueError::AlreadyQueued),
            },
        ]
    );
    match again {
        Admission::AlreadyQueued { player } => {
            assert_eq!(player.id, 2);
            assert_eq!(player.ws, "again");
            assert_eq!(player.echo, 7);
        },
        other => panic!("expected a refusal, got {other:?}"),
    }
    assert_eq!(ids(&queue), vec![1, 2]);
}

#[test]
fn newcomer_meets_the_oldest_waiter() {
    let mut queue: UserQueue<String, u32> = UserQueue::new();
    queue.push(player(1));
    queue.push(player(2));
    queue.push(player(3));
    let admission = queue.join(player(4));
    assert_eq!(
        admission.actions()[0],
        MatchmakingAction::RecordGame { game: NewGame { player_black: 4, player_white: 1 } }
    );
    match admission {
        Admission::Matched { white, black } => {
            assert_eq!(white.id, 1);
            assert_eq!(black.id, 4);
        },
        other => panic!("expected a pair, got {other:?}"),
    }
    assert_eq!(ids(&queue), vec![2, 3]);
}

#[test]
fn queue_is_first_in_first_out() {
    let mut queue: UserQueue<String, u32> = UserQueue::default();
    assert!(queue.pop().is_none());
    queue.push(player(5));
    queue.push(player(6));
    queue.push(player(7));
    assert_eq!(queue.pop().map(|p| p.id), Some(5));
    assert_eq!(queue.pop().map(|p| p.id), Some(6));
    queue.push(player(8));
    assert_eq!(queue.pop().map(|p| p.id), Some(7));
    assert_eq!(queue.pop().map(|p| p.id), Some(8));
    assert!(queue.pop().is_none());
}

#[test]
fn contains_and_remove_go_by_id() {
    let mut queue: UserQueue<String, u32> = UserQueue::new();
    queue.push(player(1));
    queue.push(player(2));
    queue.push(player(3));
    assert!(queue.contains(2));
    assert!(!queue.contains(4));
    let removed = queue.remove(2).expect("player 2 waits");
    assert_eq!(removed.id, 2);
    assert_eq!(removed.ws, "channel-2");
    assert_eq!(ids(&queue), vec![1, 3]);
    assert!(!queue.contains(2));
    assert!(queue.remove(2).is_none());
    assert_eq!(ids(&queue), vec![1, 3]);
    assert_eq!(queue.remove(1).map(|p| p.id), Some(1));
    assert_eq!(queue.remove(3).map(|p| p.id), Some(3));
    assert!(ids(&queue).is_empty());
}

#[test]
fn waiting_player_is_answered_until_the_channel_closes() {
    let mut queue: UserQueue<String, u32> = UserQueue::new();
    queue.push(player(1));
    queue.push(player(2));
    assert_eq!(
        queue.on_waiting_message(1, Inbound::Other),
        WaitingStep::Notify(MatchmakingServerMsg::Searching)
    );
    assert_eq!(ids(&queue), vec![1, 2]);
    assert_eq!(queue.on_waiting_message(1, Inbound::Close), WaitingStep::Leave);
    assert_eq!(ids(&queue), vec![2]);
    assert_eq!(queue.on_waiting_message(1, Inbound::Close), WaitingStep::Leave);
    assert_eq!(ids(&queue), vec![2]);
}

#[test]
fn player_who_left_can_join_again() {
    let mut queue: UserQueue<String, u32> = UserQueue::new();
    assert!(matches!(queue.join(player(1)), Admission::Waiting));
    assert_eq!(queue.on_waiting_message(1, Inbound::Close), WaitingStep::Leave);
    assert!(matches!(queue.join(player(1)), Admission::Waiting));
    assert!(matches!(queue.join(player(1)), Admission::AlreadyQueued { .. }));
}

#[test]
fn pair_starts_with_white_to_move() {
    let pair = OpponentPair::new(player(10), player(20));
    assert_eq!(pair.white_player.id, 10);
    assert_eq!(pair.white_player.ws, "channel-10");
    assert_eq!(pair.black_player.id, 20);
    assert_eq!(pair.black_player.ws, "channel-20");
    assert_eq!(pair.current_player_color, PieceColor::White);
    assert_eq!(pair.get_active().id, 10);
    assert_eq!(pair.get_passive().id, 20);
    assert_eq!(pair.get(PieceColor::White).id, 10);
    assert_eq!(pair.get(PieceColor::Black).id, 20);
}

#[test]
fn switch_active_swaps_roles_not_players() {
    let mut pair = OpponentPair::new(player(10), player(20));
    pair.switch_active();
    assert_eq!(pair.current_player_color, PieceColor::Black);
    assert_eq!(pair.get_active().id, 20);
    assert_eq!(pair.get_passive().id, 10);
    assert_eq!(pair.white_player.id, 10);
    assert_eq!(pair.black_player.id, 20);
    pair.switch_active().switch_active();
    assert_eq!(pair.current_player_color, PieceColor::Black);
    pair.switch_active();
    assert_eq!(pair.current_player_color, PieceColor::White);
}

#[test]
fn queue_errors_have_messages() {
    assert_eq!(QueueError::AlreadyQueued.message(), "User already in the queue");
}
