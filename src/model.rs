//! The mathematical model of one chat's game session: its two phases, its well-formedness, and
//! what each operation does to it.

use crate::game_model::{AddDiceResult, GameLogicError, Player};
use crate::telegram_types::UserId;
use vstd::prelude::*;

verus! {

/// A player's banked score at which the round ends (inclusive).
pub const WIN_SCORE: u8 = 100;

/// The die face that forfeits the turn.
pub const LOSING_FACE: u8 = 1;

/// The fewest players with which a game can start.
pub const MIN_PLAYERS: usize = 2;

/// A session as a value: the players who joined, or the game in progress.
pub enum SessionView {
    Lobby { players: Seq<Player>, is_premium: bool },
    Playing { players: Seq<Player>, turn: int, current_score: int, is_premium: bool },
}

/// No two players share an identity.
pub open spec fn unique_ids(players: Seq<Player>) -> bool {
    forall|i: int, j: int|
        0 <= i < players.len() && 0 <= j < players.len() && i != j ==> #[trigger] players[i].user_id
            != #[trigger] players[j].user_id
}

/// `p` with its banked score replaced.
pub open spec fn with_score(p: Player, score: int) -> Player {
    Player { user_id: p.user_id, name: p.name, username: p.username, score: score as u8 }
}

impl SessionView {
    /// The session of a chat that has seen no traffic, and of one that was reset.
    pub open spec fn fresh() -> SessionView {
        SessionView::Lobby { players: Seq::empty(), is_premium: false }
    }

    pub open spec fn players(self) -> Seq<Player> {
        match self {
            SessionView::Lobby { players, .. } => players,
            SessionView::Playing { players, .. } => players,
        }
    }

    pub open spec fn is_premium(self) -> bool {
        match self {
            SessionView::Lobby { is_premium, .. } => is_premium,
            SessionView::Playing { is_premium, .. } => is_premium,
        }
    }

    pub open spec fn has_player(self, id: UserId) -> bool {
        exists|i: int| 0 <= i < self.players().len() && #[trigger] self.players()[i].user_id == id
    }

    /// The player whose turn it is (meaningful while playing).
    pub open spec fn current_player(self) -> Player {
        match self {
            SessionView::Playing { players, turn, .. } => players[turn],
            SessionView::Lobby { players, .. } => players[0],
        }
    }

    /// The turn index after the current one, wrapping round the players.
    pub open spec fn next_turn(self) -> int {
        match self {
            SessionView::Playing { players, turn, .. } => (turn + 1) % (players.len() as int),
            SessionView::Lobby { .. } => 0,
        }
    }

    /// Identities are unique in both phases. Lobby: nobody has scored. Playing: at least two
    /// players, a turn index in range, nobody at the win threshold, and the current player's
    /// banked and unbanked points together still under it.
    pub open spec fn well_formed(self) -> bool {
        match self {
            SessionView::Lobby { players, .. } => unique_ids(players) && forall|i: int|
                0 <= i < players.len() ==> #[trigger] players[i].score == 0,
            SessionView::Playing { players, turn, current_score, .. } => {
                &&& unique_ids(players)
                &&& players.len() >= MIN_PLAYERS
                &&& 0 <= turn < players.len()
                &&& 0 <= current_score
                &&& players[turn].score + current_score < WIN_SCORE
                &&& forall|i: int| 0 <= i < players.len() ==> #[trigger] players[i].score < WIN_SCORE
            },
        }
    }

    pub open spec fn join_result(self, id: UserId) -> Result<(), GameLogicError> {
        match self {
            SessionView::Playing { .. } => Err(GameLogicError::JoinAfterStart),
            SessionView::Lobby { .. } => if self.has_player(id) {
                Err(GameLogicError::AlreadyJoined)
            } else {
                Ok(())
            },
        }
    }

    /// The session after `player` asks to join; `premium` tells whether that player's audience
    /// gets rewritten texts, which then holds for the whole session.
    pub open spec fn after_join(self, player: Player, premium: bool) -> SessionView {
        match self {
            SessionView::Lobby { players, is_premium } => if self.has_player(player.user_id) {
                self
            } else {
                SessionView::Lobby {
                    players: players.push(with_score(player, 0)),
                    is_premium: is_premium || premium,
                }
            },
            SessionView::Playing { .. } => self,
        }
    }

    pub open spec fn start_result(self) -> Result<(), GameLogicError> {
        match self {
            SessionView::Playing { .. } => Err(GameLogicError::AlreadyPlaying),
            SessionView::Lobby { players, .. } => if players.len() >= MIN_PLAYERS {
                Ok(())
            } else {
                Err(GameLogicError::NotEnoughPlayers)
            },
        }
    }

    /// `self` is a game that `before` may start as: the same players in some order, the first
    /// of them to move, nothing unbanked.
    pub open spec fn is_start_of(self, before: SessionView) -> bool {
        &&& before is Lobby
        &&& self is Playing
        &&& self.players().to_multiset() == before.players().to_multiset()
        &&& self->Playing_turn == 0
        &&& self->Playing_current_score == 0
        &&& self.is_premium() == before.is_premium()
    }

    /// What a move by `id` is refused with, if it is.
    pub open spec fn move_error(self, id: UserId) -> Option<GameLogicError> {
        match self {
            SessionView::Lobby { .. } => Some(GameLogicError::NotPlaying),
            SessionView::Playing { .. } => if self.current_player().user_id != id {
                Some(GameLogicError::WrongTurn)
            } else {
                None
            },
        }
    }

    pub open spec fn roll_result(self, id: UserId, value: u8) -> Result<AddDiceResult, GameLogicError> {
        match self.move_error(id) {
            Some(e) => Err(e),
            None => {
                let cs = self->Playing_current_score;
                let p = self.current_player();
                if value == LOSING_FACE {
                    Ok(AddDiceResult::TurnLost(self.players()[self.next_turn()], cs as u8))
                } else if p.score + cs + value >= WIN_SCORE {
                    Ok(AddDiceResult::Finished)
                } else {
                    Ok(AddDiceResult::Continue(p, (cs + value) as u8))
                }
            },
        }
    }

    pub open spec fn after_roll(self, id: UserId, value: u8) -> SessionView {
        match self.move_error(id) {
            Some(_) => self,
            None => {
                let players = self->Playing_players;
                let turn = self->Playing_turn;
                let current_score = self->Playing_current_score;
                let is_premium = self->Playing_is_premium;
                let p = players[turn];
                if value == LOSING_FACE {
                    SessionView::Playing {
                        players,
                        turn: self.next_turn(),
                        current_score: 0,
                        is_premium,
                    }
                } else if p.score + current_score + value >= WIN_SCORE {
                    SessionView::Playing {
                        players: players.update(turn, with_score(p, p.score + current_score + value)),
                        turn,
                        current_score: 0,
                        is_premium,
                    }
                } else {
                    SessionView::Playing {
                        players,
                        turn,
                        current_score: current_score + value,
                        is_premium,
                    }
                }
            },
        }
    }

    /// Holding: the new banked total, the points banked, and the player who moves next.
    pub open spec fn bank_result(self, id: UserId) -> Result<(u8, u8, Player), GameLogicError> {
        match self.move_error(id) {
            Some(e) => Err(e),
            None => {
                let cs = self->Playing_current_score;
                Ok(
                    (
                        (self.current_player().score + cs) as u8,
                        cs as u8,
                        self.after_bank(id).current_player(),
                    ),
                )
            },
        }
    }

    pub open spec fn after_bank(self, id: UserId) -> SessionView {
        match self.move_error(id) {
            Some(_) => self,
            None => {
                let players = self->Playing_players;
                let turn = self->Playing_turn;
                SessionView::Playing {
                    players: players.update(
                        turn,
                        with_score(players[turn], players[turn].score + self->Playing_current_score),
                    ),
                    turn: self.next_turn(),
                    current_score: 0,
                    is_premium: self->Playing_is_premium,
                }
            },
        }
    }
}

/// The session after each of `joiners` asks to join in turn (with whether that player's
/// audience gets rewritten texts).
pub open spec fn after_joins(s: SessionView, joiners: Seq<(Player, bool)>) -> SessionView
    decreases joiners.len(),
{
    if joiners.len() == 0 {
        s
    } else {
        after_joins(s, joiners.drop_last()).after_join(joiners.last().0, joiners.last().1)
    }
}

/// No two of `joiners` share an identity.
pub open spec fn distinct_joiners(joiners: Seq<(Player, bool)>) -> bool {
    forall|i: int, j: int|
        0 <= i < joiners.len() && 0 <= j < joiners.len() && i != j ==> #[trigger] joiners[i].0.user_id
            != #[trigger] joiners[j].0.user_id
}

/// Joins by distinct identities into a fresh session all succeed, and the lobby then holds one
/// player per join, in the order of the joins.
pub proof fn lemma_distinct_joins_count(joiners: Seq<(Player, bool)>)
    requires
        distinct_joiners(joiners),
    ensures
        after_joins(SessionView::fresh(), joiners) is Lobby,
        after_joins(SessionView::fresh(), joiners).players().len() == joiners.len(),
        forall|i: int|
            0 <= i < joiners.len() ==> #[trigger] after_joins(
                SessionView::fresh(),
                joiners,
            ).players()[i].user_id
                == joiners[i].0.user_id,
        forall|k: int|
            0 <= k < joiners.len() ==> #[trigger] after_joins(
                SessionView::fresh(),
                joiners.take(k),
            ).join_result(
                joiners[k].0.user_id,
            ) is Ok,
    decreases joiners.len(),
{
    if joiners.len() > 0 {
        let earlier = joiners.drop_last();
        let n = earlier.len() as int;
        assert(distinct_joiners(earlier)) by {
            assert forall|i: int, j: int|
                0 <= i < earlier.len() && 0 <= j < earlier.len() && i != j implies #[trigger] earlier[i].0.user_id
                    != #[trigger] earlier[j].0.user_id by {
                assert(earlier[i] == joiners[i] && earlier[j] == joiners[j]);
            }
        }
        lemma_distinct_joins_count(earlier);
        let before = after_joins(SessionView::fresh(), earlier);
        let last = joiners.last();
        assert(!before.has_player(last.0.user_id)) by {
            if before.has_player(last.0.user_id) {
                let i = choose|i: int|
                    0 <= i < before.players().len() && #[trigger] before.players()[i].user_id
                        == last.0.user_id;
                assert(earlier[i] == joiners[i]);
                assert(joiners[i].0.user_id != joiners[n].0.user_id);
            }
        }
        assert forall|k: int| 0 <= k < joiners.len() implies #[trigger] after_joins(
            SessionView::fresh(),
            joiners.take(k),
        ).join_result(joiners[k].0.user_id) is Ok by {
            if k < n {
                assert(joiners.take(k) =~= earlier.take(k));
                assert(earlier[k] == joiners[k]);
            } else {
                assert(joiners.take(k) =~= earlier);
            }
        }
    }
}

/// A join by an identity that is already in the lobby is refused with `AlreadyJoined`, and the
/// session, its player count included, stays as it was.
pub proof fn lemma_duplicate_join_refused(s: SessionView, player: Player, premium: bool)
    requires
        s is Lobby,
        s.has_player(player.user_id),
    ensures
        s.join_result(player.user_id) == Err::<(), GameLogicError>(GameLogicError::AlreadyJoined),
        s.after_join(player, premium) == s,
        s.after_join(player, premium).players().len() == s.players().len(),
{
}

} // verus!
