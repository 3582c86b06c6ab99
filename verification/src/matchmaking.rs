//! The queue of players that wait for an opponent.

use crate::fault::QueueError;
use crate::piece_color::PieceColor;
use crate::ws_messages::MatchmakingServerMsg;
use std::collections::VecDeque;
use vstd::prelude::*;

verus! {

/// A player in the queue: the player's id, the player's channel, and the
/// task that answers the player while the wait lasts. The queue reads only
/// the id and hands the other two on as they are.
#[derive(Debug)]
pub struct MatchmakingPlayer<W, E> {
    pub id: i32,
    pub ws: W,
    pub echo: E,
}

impl<W, E> MatchmakingPlayer<W, E> {
    /// A player with the given id, channel and answering task.
    pub fn new(id: i32, ws: W, echo: E) -> (player: MatchmakingPlayer<W, E>)
        ensures
            player == (MatchmakingPlayer { id, ws, echo }),
    {
        MatchmakingPlayer { id, ws, echo }
    }
}

/// The record of a game that is to be created for two paired players.
#[derive(PartialEq, Eq, Structural, Clone, Copy, Debug)]
pub struct NewGame {
    pub player_black: i32,
    pub player_white: i32,
}

/// One of the two players of an admission.
#[derive(PartialEq, Eq, Structural, Clone, Copy, Debug)]
pub enum Party {
    /// The player who asked for a game.
    Newcomer,
    /// The player who waited in the queue.
    Waiter,
}

/// One thing to do about an admission. The actions are to be performed in
/// their order; if the game cannot be recorded, the rest is left undone.
#[derive(PartialEq, Eq, Structural, Clone, Copy, Debug)]
pub enum MatchmakingAction {
    /// Record the game of the two players.
    RecordGame { game: NewGame },
    /// Tell a player the notice.
    Notify { party: Party, notice: MatchmakingServerMsg },
    /// Stop the task that answers a player while the wait lasts.
    CancelSearch { party: Party },
    /// Hand both players over to their game.
    StartGame,
}

/// What became of a player who asked for a game.
#[derive(Debug)]
pub enum Admission<W, E> {
    /// The player waits in the queue already and is handed back.
    AlreadyQueued { player: MatchmakingPlayer<W, E> },
    /// Nobody was waiting: the player has joined the queue.
    Waiting,
    /// The player who waited longest has left the queue to play White
    /// against the newcomer, who plays Black.
    Matched { white: MatchmakingPlayer<W, E>, black: MatchmakingPlayer<W, E> },
}

impl<W, E> Admission<W, E> {
    /// What is to be done about the admission. A player who waits already
    /// is told so, and the player's new search is stopped. A player who
    /// joins the queue is told that the search goes on. For two players who
    /// are paired the game is recorded, with the newcomer as Black and the
    /// waiter as White; each is told the player's side; the search of both
    /// is stopped; and then their game begins.
    pub open spec fn plan(&self) -> Seq<MatchmakingAction> {
        match self {
            Admission::AlreadyQueued { .. } => seq![
                MatchmakingAction::CancelSearch { party: Party::Newcomer },
                MatchmakingAction::Notify {
                    party: Party::Newcomer,
                    notice: MatchmakingServerMsg::Error(QueueError::AlreadyQueued),
                },
            ],
            Admission::Waiting => seq![
                MatchmakingAction::Notify {
                    party: Party::Newcomer,
                    notice: MatchmakingServerMsg::Searching,
                },
            ],
            Admission::Matched { white, black } => seq![
                MatchmakingAction::RecordGame {
                    game: NewGame { player_black: black.id, player_white: white.id },
                },
                MatchmakingAction::Notify {
                    party: Party::Newcomer,
                    notice: MatchmakingServerMsg::Success { color: PieceColor::Black },
                },
                MatchmakingAction::Notify {
                    party: Party::Waiter,
                    notice: MatchmakingServerMsg::Success { color: PieceColor::White },
                },
                MatchmakingAction::CancelSearch { party: Party::Newcomer },
                MatchmakingAction::CancelSearch { party: Party::Waiter },
                MatchmakingAction::StartGame,
            ],
        }
    }

    /// Returns what is to be done about the admission, in order.
    pub fn actions(&self) -> (actions: Vec<MatchmakingAction>)
        ensures
            actions@ == self.plan(),
    {
        let mut actions: Vec<MatchmakingAction> = Vec::new();
        match self {
            Admission::AlreadyQueued { .. } => {
                actions.push(MatchmakingAction::CancelSearch { party: Party::Newcomer });
                actions.push(
                    MatchmakingAction::Notify {
                        party: Party::Newcomer,
                        notice: MatchmakingServerMsg::Error(QueueError::AlreadyQueued),
                    },
                );
            },
            Admission::Waiting => {
                actions.push(
                    MatchmakingAction::Notify {
                        party: Party::Newcomer,
                        notice: MatchmakingServerMsg::Searching,
                    },
                );
            },
            Admission::Matched { white, black } => {
                actions.push(
                    MatchmakingAction::RecordGame {
                        game: NewGame { player_black: black.id, player_white: white.id },
                    },
                );
                actions.push(
                    MatchmakingAction::Notify {
                        party: Party::Newcomer,
                        notice: MatchmakingServerMsg::Success { color: PieceColor::Black },
                    },
                );
                actions.push(
                    MatchmakingAction::Notify {
                        party: Party::Waiter,
                        notice: MatchmakingServerMsg::Success { color: PieceColor::White },
                    },
                );
                actions.push(MatchmakingAction::CancelSearch { party: Party::Newcomer });
                actions.push(MatchmakingAction::CancelSearch { party: Party::Waiter });
                actions.push(MatchmakingAction::StartGame);
            },
        }
        assert(actions@ =~= self.plan());
        actions
    }
}

/// What a waiting player sent.
#[derive(PartialEq, Eq, Structural, Clone, Copy, Debug)]
pub enum Inbound {
    /// The player closed the channel.
    Close,
    /// Anything else.
    Other,
}

/// What to do about a waiting player who sent something.
#[derive(PartialEq, Eq, Structural, Clone, Copy, Debug)]
pub enum WaitingStep {
    /// The player has left the queue: stop listening.
    Leave,
    /// Tell the player the notice and go on listening.
    Notify(MatchmakingServerMsg),
}

/// The players that wait for an opponent, the one who waits longest first.
#[derive(Debug)]
pub struct UserQueue<W, E> {
    pub state: VecDeque<MatchmakingPlayer<W, E>>,
}

/// The place of the first of `players` with the given id, or their number if
/// none has it.
pub open spec fn first_with_id<W, E>(players: Seq<MatchmakingPlayer<W, E>>, id: i32) -> int
    decreases players.len(),
{
    if players.len() == 0 || players[0].id == id {
        0
    } else {
        1 + first_with_id(players.drop_first(), id)
    }
}

/// `first_with_id` is a place in the sequence whose player has the id, with
/// no such player before it, or it is the length of a sequence without such
/// a player.
pub proof fn lemma_first_with_id<W, E>(players: Seq<MatchmakingPlayer<W, E>>, id: i32)
    ensures
        0 <= first_with_id(players, id) <= players.len(),
        first_with_id(players, id) < players.len() ==> players[first_with_id(players, id)].id
            == id,
        forall|k: int| 0 <= k < first_with_id(players, id) ==> (#[trigger] players[k]).id != id,
    decreases players.len(),
{
    if players.len() == 0 || players[0].id == id {
    } else {
        let rest = players.drop_first();
        lemma_first_with_id(rest, id);
        assert forall|k: int| 0 <= k < first_with_id(players, id) implies (
        #[trigger] players[k]).id != id by {
            if k > 0 {
                assert(players[k] == rest[k - 1]);
            }
        }
    }
}

impl<W, E> Default for UserQueue<W, E> {
    /// A queue in which nobody waits.
    fn default() -> (queue: UserQueue<W, E>)
        ensures
            queue.state@ == Seq::<MatchmakingPlayer<W, E>>::empty(),
    {
        UserQueue { state: VecDeque::new() }
    }
}

impl<W, E> UserQueue<W, E> {
    /// Whether a player with the given id waits in the queue.
    pub open spec fn waits(&self, id: i32) -> bool {
        first_with_id(self.state@, id) < self.state@.len()
    }

    /// The validity of a queue: no player waits twice.
    pub open spec fn wf(&self) -> bool {
        forall|i: int, j: int|
            0 <= i < j < self.state@.len() ==> (#[trigger] self.state@[i]).id != (
            #[trigger] self.state@[j]).id
    }

    /// The queue when the player with the given id has left it.
    pub open spec fn without(&self, id: i32) -> Seq<MatchmakingPlayer<W, E>> {
        if self.waits(id) {
            self.state@.remove(first_with_id(self.state@, id))
        } else {
            self.state@
        }
    }

    /// What becomes of a player who asks for a game: a player who waits
    /// already is turned away; with nobody waiting the player is to wait;
    /// otherwise the player plays Black against the player who waits
    /// longest, who plays White.
    pub open spec fn admission_of(&self, player: MatchmakingPlayer<W, E>) -> Admission<W, E> {
        if self.waits(player.id) {
            Admission::AlreadyQueued { player }
        } else if self.state@.len() == 0 {
            Admission::Waiting
        } else {
            Admission::Matched { white: self.state@[0], black: player }
        }
    }

    /// The queue after a player has asked for a game.
    pub open spec fn after_join(&self, player: MatchmakingPlayer<W, E>) -> Seq<
        MatchmakingPlayer<W, E>,
    > {
        if self.waits(player.id) {
            self.state@
        } else if self.state@.len() == 0 {
            seq![player]
        } else {
            self.state@.drop_first()
        }
    }

    /// A queue in which nobody waits.
    pub fn new() -> (queue: UserQueue<W, E>)
        ensures
            queue.state@ == Seq::<MatchmakingPlayer<W, E>>::empty(),
            queue.wf(),
    {
        UserQueue { state: VecDeque::new() }
    }

    /// Puts a player at the end of the queue, whether or not the player
    /// waits there already; the queue stays valid if the player did not.
    pub fn push(&mut self, matchmaking_player: MatchmakingPlayer<W, E>)
        ensures
            final(self).state@ == old(self).state@.push(matchmaking_player),
            old(self).wf() && !old(self).waits(matchmaking_player.id) ==> final(self).wf(),
    {
        proof {
            lemma_first_with_id(self.state@, matchmaking_player.id);
        }
        self.state.push_back(matchmaking_player);
    }

    /// Takes the player who waits longest out of the queue.
    pub fn pop(&mut self) -> (oldest: Option<MatchmakingPlayer<W, E>>)
        ensures
            old(self).wf() ==> final(self).wf(),
            match oldest {
                Some(player) => old(self).state@.len() > 0 && player == old(self).state@[0]
                    && final(self).state@ == old(self).state@.drop_first(),
                None => old(self).state@.len() == 0 && final(self).state@ == old(self).state@,
            },
    {
        let oldest = self.state.pop_front();
        proof {
            if old(self).wf() && oldest is Some {
                assert forall|i: int, j: int| 0 <= i < j < self.state@.len() implies (
                #[trigger] self.state@[i]).id != (#[trigger] self.state@[j]).id by {
                    assert(self.state@[i] == old(self).state@[i + 1]);
                    assert(self.state@[j] == old(self).state@[j + 1]);
                }
            }
            assert(oldest is Some ==> self.state@ == old(self).state@.drop_first());
        }
        oldest
    }

    /// The place of the first waiting player with the given id.
    fn index_of(&self, id: i32) -> (place: usize)
        ensures
            place == first_with_id(self.state@, id),
            place <= self.state@.len(),
    {
        let mut i: usize = 0;
        proof {
            lemma_first_with_id(self.state@, id);
        }
        while i < self.state.len()
            invariant
                i <= self.state@.len(),
                i <= first_with_id(self.state@, id) <= self.state@.len(),
                first_with_id(self.state@, id) < self.state@.len() ==> self.state@[first_with_id(
                    self.state@,
                    id,
                )].id == id,
                forall|k: int|
                    0 <= k < first_with_id(self.state@, id) ==> (#[trigger] self.state@[k]).id
                        != id,
            decreases self.state@.len() - i,
        {
            if self.state[i].id == id {
                return i;
            }
            i += 1;
        }
        i
    }

    /// Tells whether a player with the given id waits in the queue.
    pub fn contains(&self, id: i32) -> (waits: bool)
        ensures
            waits == self.waits(id),
    {
        self.index_of(id) < self.state.len()
    }

    /// Takes the player with the given id out of the queue, if the player
    /// waits there. The others keep their order.
    pub fn remove(&mut self, id: i32) -> (removed: Option<MatchmakingPlayer<W, E>>)
        ensures
            old(self).wf() ==> final(self).wf(),
            final(self).state@ == old(self).without(id),
            match removed {
                Some(player) => old(self).waits(id) && player == old(self).state@[first_with_id(
                    old(self).state@,
                    id,
                )],
                None => !old(self).waits(id),
            },
    {
        let place = self.index_of(id);
        if place < self.state.len() {
            let removed = self.state.remove(place);
            proof {
                if old(self).wf() {
                    assert forall|i: int, j: int| 0 <= i < j < self.state@.len() implies (
                    #[trigger] self.state@[i]).id != (#[trigger] self.state@[j]).id by {
                        let i0 = if i < place {
                            i
                        } else {
                            i + 1
                        };
                        let j0 = if j < place {
                            j
                        } else {
                            j + 1
                        };
                        assert(self.state@[i] == old(self).state@[i0]);
                        assert(self.state@[j] == old(self).state@[j0]);
                    }
                }
            }
            removed
        } else {
            None
        }
    }

    /// Receives a player who asks for a game, in one step: a player who waits
    /// already is turned away; with nobody waiting the player joins the
    /// queue; otherwise the player who waits longest leaves the queue and
    /// plays White against the newcomer.
    pub fn join(&mut self, player: MatchmakingPlayer<W, E>) -> (admission: Admission<W, E>)
        ensures
            old(self).wf() ==> final(self).wf(),
            admission == old(self).admission_of(player),
            final(self).state@ == old(self).after_join(player),
    {
        if self.contains(player.id) {
            return Admission::AlreadyQueued { player };
        }
        match self.pop() {
            None => {
                self.push(player);
                Admission::Waiting
            },
            Some(opponent) => Admission::Matched { white: opponent, black: player },
        }
    }

    /// Decides what to do when the waiting player with the given id sent
    /// something: a player who closes the channel leaves the queue, any
    /// other is told once more that the search goes on.
    pub fn on_waiting_message(&mut self, user_id: i32, inbound: Inbound) -> (step: WaitingStep)
        ensures
            old(self).wf() ==> final(self).wf(),
            match inbound {
                Inbound::Close => step == WaitingStep::Leave && final(self).state@ == old(
                    self,
                ).without(user_id),
                Inbound::Other => step == WaitingStep::Notify(MatchmakingServerMsg::Searching)
                    && final(self).state@ == old(self).state@,
            },
    {
        match inbound {
            Inbound::Close => {
                let _ = self.remove(user_id);
                WaitingStep::Leave
            },
            Inbound::Other => WaitingStep::Notify(MatchmakingServerMsg::Searching),
        }
    }
}

/// Of two players who ask for a game one after the other, with nobody
/// waiting before them, the first waits and is told that the search goes
/// on, and the second is paired with the first: the game that is recorded
/// names the first as White and the second as Black, each is told that
/// side, and the queue is empty again.
pub proof fn first_to_wait_plays_white<W, E>(
    empty: UserQueue<W, E>,
    waiting: UserQueue<W, E>,
    first: MatchmakingPlayer<W, E>,
    second: MatchmakingPlayer<W, E>,
)
    requires
        empty.state@.len() == 0,
        waiting.state@ == empty.after_join(first),
        first.id != second.id,
    ensures
        empty.admission_of(first) == Admission::<W, E>::Waiting,
        empty.admission_of(first).plan() == seq![
            MatchmakingAction::Notify {
                party: Party::Newcomer,
                notice: MatchmakingServerMsg::Searching,
            },
        ],
        waiting.admission_of(second) == (Admission::Matched { white: first, black: second }),
        waiting.admission_of(second).plan()[0] == (MatchmakingAction::RecordGame {
            game: NewGame { player_black: second.id, player_white: first.id },
        }),
        waiting.admission_of(second).plan()[1] == (MatchmakingAction::Notify {
            party: Party::Newcomer,
            notice: MatchmakingServerMsg::Success { color: PieceColor::Black },
        }),
        waiting.admission_of(second).plan()[2] == (MatchmakingAction::Notify {
            party: Party::Waiter,
            notice: MatchmakingServerMsg::Success { color: PieceColor::White },
        }),
        waiting.after_join(second).len() == 0,
{
    reveal_with_fuel(first_with_id, 2);
    assert(empty.state@.len() == 0);
    assert(waiting.state@ == seq![first]);
    assert(waiting.state@.drop_first().len() == 0);
}

/// A player who waits in a valid queue and asks again is turned away, and
/// the queue stays as it is; any other player leaves a valid queue valid
/// and at most one player long if it was so before.
pub proof fn nobody_waits_twice<W, E>(queue: UserQueue<W, E>, player: MatchmakingPlayer<W, E>)
    requires
        queue.wf(),
    ensures
        queue.waits(player.id) ==> queue.admission_of(player) is AlreadyQueued
            && queue.after_join(player) == queue.state@,
        forall|i: int, j: int|
            0 <= i < j < queue.after_join(player).len() ==> (#[trigger] queue.after_join(
                player,
            )[i]).id != (#[trigger] queue.after_join(player)[j]).id,
        queue.state@.len() <= 1 ==> queue.after_join(player).len() <= 1,
{
    let after = queue.after_join(player);
    assert forall|i: int, j: int| 0 <= i < j < after.len() implies (#[trigger] after[i]).id != (
    #[trigger] after[j]).id by {
        if queue.waits(player.id) {
        } else if queue.state@.len() == 0 {
        } else {
            assert(after[i] == queue.state@[i + 1]);
            assert(after[j] == queue.state@[j + 1]);
        }
    }
}

} // verus!
