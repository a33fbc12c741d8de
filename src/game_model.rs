//! One chat's game session: players join a lobby, a start puts them in a random order, and
//! then each in turn rolls the die or banks the points of the turn.

use crate::message_action::{
    actions_view, keyboard_row_view, opt_text, ButtonView, EditMessageInfo, MessageAction,
    MessageActionView, MessageInfo,
};
use crate::model::{unique_ids, SessionView, LOSING_FACE, MIN_PLAYERS, WIN_SCORE};
use crate::outcome::{
    callback_outcome, command_of, command_outcome, commands_trace, concat_all, confirm_markup,
    dice_outcome, error_reply_view, greeting_view, group_message_outcome, mention_text,
    player_lines, results_view, score_lines, send_view, show_text, Command,
};
use crate::prompt_messages::{
    already_joined, game_already_started, game_is_not_started, game_logic_error_hint, greeting,
    greeting_hint, hold, hold_hint, join_after_play, joined, joined_hint, next_turn,
    next_turn_hint, not_enough_player, not_your_turn, player_list_hint, reset, reset_confirm,
    reset_confirm_hint, reset_hint, result_hint, started, started_hint, turn_lost, turn_lost_hint,
};
use crate::telegram_types::{
    message_commands, DiceType, InlineKeyboardButton, Message, MessageId, ReplyMarkup, UserId,
};
use crate::text_messages::{push_decimal, same_text, DICE_EMOJI, KING_EMOJI};
use rand::seq::SliceRandom;
use vstd::prelude::*;

verus! {

/// A player who joined a session, with the points banked so far.
pub struct Player {
    pub user_id: UserId,
    pub name: String,
    pub username: Option<String>,
    pub score: u8,
}

impl Player {
    fn duplicate(&self) -> (r: Player)
        ensures
            r == *self,
    {
        let username = match &self.username {
            Some(u) => Some(u.clone()),
            None => None,
        };
        Player { user_id: self.user_id, name: self.name.clone(), username, score: self.score }
    }

    /// How the player is addressed in a message.
    pub fn get_mention_string(&self) -> (r: String)
        ensures
            r@ == mention_text(*self),
    {
        match &self.username {
            Some(username) => {
                let mut r = String::from_str("@");
                r.append(username.as_str());
                r
            },
            None => self.name.clone(),
        }
    }

    /// How the player is listed, with the banked score when `score` holds.
    pub fn show(&self, score: bool) -> (r: String)
        ensures
            r@ == show_text(*self, score),
    {
        let mut name = self.name.clone();
        match &self.username {
            Some(username) => {
                name.append(" (");
                name.append(username.as_str());
                name.append(")");
            },
            None => {},
        }
        if score {
            name.append(": ");
            push_decimal(&mut name, self.score);
        }
        name
    }
}

/// Why an operation on a session was refused; the session is then left as it was.
#[derive(Clone, Copy, PartialEq, Eq, Structural, Debug)]
pub enum GameLogicError {
    JoinAfterStart,
    AlreadyPlaying,
    NotPlaying,
    WrongTurn,
    NotEnoughPlayers,
    AlreadyJoined,
}

impl GameLogicError {
    /// The reply to the refused request, addressed to its message.
    pub fn get_reply_message(
        &self,
        reply_to_message_id: MessageId,
        audience_name: String,
        is_premium: bool,
    ) -> (r: MessageAction)
        ensures
            r@ == error_reply_view(*self, reply_to_message_id, audience_name@, is_premium),
    {
        let text = match self {
            GameLogicError::JoinAfterStart => join_after_play(),
            GameLogicError::AlreadyJoined => already_joined(),
            GameLogicError::AlreadyPlaying => game_already_started(),
            GameLogicError::NotEnoughPlayers => not_enough_player(),
            GameLogicError::NotPlaying => game_is_not_started(),
            GameLogicError::WrongTurn => not_your_turn(),
        };
        MessageAction::Send(
            MessageInfo {
                text: String::from_str(text),
                reply_to_message_id: Some(reply_to_message_id),
                reply_markup: None,
                hint: Some(game_logic_error_hint(&audience_name)),
                is_premium,
            },
        )
    }
}

/// What a roll of the die did.
pub enum AddDiceResult {
    /// The roller reached the win threshold; the session is to be reset.
    Finished,
    /// A one was rolled: the turn's points are lost. Holds the player who moves next and
    /// the points that were lost.
    TurnLost(Player, u8),
    /// The roller may go on. Holds the roller and the turn's points so far.
    Continue(Player, u8),
}

/// The command that a command token names.
fn parse_command(command: &str) -> (r: Option<Command>)
    ensures
        r == command_of(command@),
{
    if same_text(command, "/join") || same_text(command, "/join@piiigdicegamebot") {
        Some(Command::Join)
    } else if same_text(command, "/play") || same_text(command, "/play@piiigdicegamebot") {
        Some(Command::Play)
    } else if same_text(command, "/hold") || same_text(command, "/hold@piiigdicegamebot") {
        Some(Command::Hold)
    } else if same_text(command, "/result") || same_text(command, "/result@piiigdicegamebot") {
        Some(Command::Results)
    } else if same_text(command, "/reset") || same_text(command, "/reset@piiigdicegamebot") {
        Some(Command::Reset)
    } else {
        None
    }
}

fn clone_text(s: &Option<String>) -> (r: Option<String>)
    ensures
        r == *s,
{
    match s {
        Some(t) => Some(t.clone()),
        None => None,
    }
}

/// A message with no buttons.
fn plain_message(
    text: String,
    reply_to: Option<MessageId>,
    hint: Option<String>,
    is_premium: bool,
) -> (r: MessageAction)
    ensures
        r@ == send_view(text@, reply_to, opt_text(hint), is_premium),
{
    MessageAction::Send(
        MessageInfo { text, reply_to_message_id: reply_to, reply_markup: None, hint, is_premium },
    )
}

/// The one button under a reset request.
fn confirm_keyboard() -> (r: ReplyMarkup)
    ensures
        r@ == confirm_markup(),
{
    let mut row: Vec<InlineKeyboardButton> = Vec::new();
    row.push(
        InlineKeyboardButton {
            text: String::from_str("Yes"),
            callback_data: Some(String::from_str("reset")),
        },
    );
    let mut rows: Vec<Vec<InlineKeyboardButton>> = Vec::new();
    rows.push(row);
    let r = ReplyMarkup { inline_keyboard: Some(rows) };
    assert(keyboard_row_view(rows@[0]) =~= confirm_markup().inline_keyboard->Some_0[0]);
    assert(r@.inline_keyboard->Some_0 =~= confirm_markup().inline_keyboard->Some_0);
    r
}

/// The answer to a message in a private chat. `sender_is_premium` tells whether the sender's
/// audience gets rewritten texts.
pub fn greeting_message(message: &Message, sender_is_premium: bool) -> (r: MessageAction)
    ensures
        r@ == greeting_view(*message, sender_is_premium),
{
    match &message.from {
        Some(sender) => plain_message(
            String::from_str(greeting()),
            None,
            Some(greeting_hint(&sender.first_name)),
            sender_is_premium,
        ),
        None => plain_message(String::from_str(greeting()), None, None, false),
    }
}

/// A session whose game has not started: the players who joined, in the order they joined.
pub struct NewGame {
    players: Vec<Player>,
    is_premium: bool,
}

impl View for NewGame {
    type V = SessionView;

    closed spec fn view(&self) -> SessionView {
        SessionView::Lobby { players: self.players@, is_premium: self.is_premium }
    }
}

/// Whether a player with identity `user_id` is among `players`.
fn has_player(players: &Vec<Player>, user_id: UserId) -> (r: bool)
    ensures
        r == exists|i: int| 0 <= i < players@.len() && #[trigger] players@[i].user_id == user_id,
{
    let mut i: usize = 0;
    while i < players.len()
        invariant
            i <= players@.len(),
            forall|k: int| 0 <= k < i ==> #[trigger] players@[k].user_id != user_id,
        decreases players@.len() - i,
    {
        if players[i].user_id == user_id {
            return true;
        }
        i = i + 1;
    }
    false
}

impl NewGame {
    pub fn new() -> (r: NewGame)
        ensures
            r@ == SessionView::fresh(),
    {
        NewGame { players: Vec::new(), is_premium: false }
    }

    /// The players who joined, in the order they joined.
    pub fn players(&self) -> (r: &Vec<Player>)
        ensures
            r@ == self@.players(),
    {
        &self.players
    }

    /// The listing of the players who joined.
    fn send_players(&self) -> (r: MessageAction)
        ensures
            r@ == results_view(self@),
    {
        let text = if self.players.len() == 0 {
            String::from_str("No players!")
        } else {
            let mut text = String::from_str("Players:");
            let mut i: usize = 0;
            while i < self.players.len()
                invariant
                    i <= self.players@.len(),
                    text@ == "Players:"@ + player_lines(self.players@, i as int),
                decreases self.players@.len() - i,
            {
                let line = self.players[i].show(false);
                let ghost before = text@;
                text.append("\n- ");
                text.append(line.as_str());
                assert(text@ =~= "Players:"@ + player_lines(self.players@, i + 1));
                i = i + 1;
            }
            text
        };
        MessageAction::Send(
            MessageInfo {
                text,
                reply_to_message_id: None,
                reply_markup: None,
                hint: Some(String::from_str(player_list_hint())),
                is_premium: self.is_premium,
            },
        )
    }
}

/// Puts `items` in a random order.
///
/// Relies on rand's `SliceRandom::shuffle`, which reorders the slice in place by swaps only,
/// drawing from the thread-local generator that `rand::thread_rng` returns.
#[verifier::external_body]
fn shuffle<T>(items: &mut Vec<T>)
    ensures
        final(items)@.to_multiset() == old(items)@.to_multiset(),
{
    items.shuffle(&mut rand::thread_rng());
}

/// A session whose game is in progress.
pub struct PlayingGame {
    players: Vec<Player>,
    turn: usize,
    current_score: u8,
    is_premium: bool,
}

impl View for PlayingGame {
    type V = SessionView;

    closed spec fn view(&self) -> SessionView {
        SessionView::Playing {
            players: self.players@,
            turn: self.turn as int,
            current_score: self.current_score as int,
            is_premium: self.is_premium,
        }
    }
}

impl PlayingGame {
    /// The players in the order of play.
    pub fn players(&self) -> (r: &Vec<Player>)
        ensures
            r@ == self@.players(),
    {
        &self.players
    }

    /// The index of the player whose turn it is.
    pub fn turn(&self) -> (r: usize)
        ensures
            r == self@->Playing_turn,
    {
        self.turn
    }

    /// The points of the current turn that are not banked yet.
    pub fn current_score(&self) -> (r: u8)
        ensures
            r == self@->Playing_current_score,
    {
        self.current_score
    }

    /// Starts the game of `new_game`: its players in a random order, the first of them to move.
    fn from(new_game: NewGame) -> (r: PlayingGame)
        requires
            new_game@.well_formed(),
            new_game@.players().len() >= MIN_PLAYERS,
        ensures
            r@.is_start_of(new_game@),
            r@.players().len() == new_game@.players().len(),
            r@.well_formed(),
    {
        let mut players = new_game.players;
        shuffle(&mut players);
        let r = PlayingGame { players, turn: 0, current_score: 0, is_premium: new_game.is_premium };
        proof {
            broadcast use vstd::seq_lib::group_to_multiset_ensures;

            let before = new_game.players@;
            let after = r.players@;
            assert(after.len() == before.len()) by {
                assert(after.len() == after.to_multiset().len());
                assert(before.len() == before.to_multiset().len());
            }
            assert(before.no_duplicates()) by {
                assert forall|i: int, j: int|
                    0 <= i < before.len() && 0 <= j < before.len() && i != j implies before[i]
                        != before[j] by {
                    assert(before[i].user_id != before[j].user_id);
                }
            }
            before.lemma_multiset_has_no_duplicates();
            after.lemma_multiset_has_no_duplicates_conv();
            assert(unique_ids(after)) by {
                assert forall|i: int, j: int|
                    0 <= i < after.len() && 0 <= j < after.len() && i != j implies #[trigger] after[i].user_id
                        != #[trigger] after[j].user_id by {
                    assert(after.to_multiset().count(after[i]) > 0);
                    assert(after.to_multiset().count(after[j]) > 0);
                    assert(before.contains(after[i]));
                    assert(before.contains(after[j]));
                    let k = choose|k: int| 0 <= k < before.len() && before[k] == after[i];
                    let l = choose|l: int| 0 <= l < before.len() && before[l] == after[j];
                    assert(after[i] != after[j]);
                }
            }
            assert forall|i: int| 0 <= i < after.len() implies #[trigger] after[i].score < WIN_SCORE by {
                assert(after.to_multiset().count(after[i]) > 0);
                assert(before.contains(after[i]));
                let k = choose|k: int| 0 <= k < before.len() && before[k] == after[i];
                assert(before[k].score == 0);
            }
        }
        r
    }

    /// Everybody's score, marking the current player and whoever reached the win threshold.
    fn send_results(&self) -> (r: MessageAction)
        ensures
            r@ == results_view(self@),
    {
        let mut text = String::from_str("Scores:");
        let mut i: usize = 0;
        while i < self.players.len()
            invariant
                i <= self.players@.len(),
                text@ == "Scores:"@ + score_lines(self.players@, self.turn as int, i as int),
            decreases self.players@.len() - i,
        {
            let player = &self.players[i];
            text.append("\n- ");
            if player.score >= WIN_SCORE {
                text.append(KING_EMOJI);
                text.append(" ");
            } else if self.turn == i {
                text.append(DICE_EMOJI);
                text.append(" ");
            }
            let line = player.show(true);
            text.append(line.as_str());
            assert(text@ =~= "Scores:"@ + score_lines(self.players@, self.turn as int, i + 1));
            i = i + 1;
        }
        MessageAction::Send(
            MessageInfo {
                text,
                reply_to_message_id: None,
                reply_markup: None,
                hint: Some(String::from_str(result_hint())),
                is_premium: self.is_premium,
            },
        )
    }

    fn get_current_player(&self) -> (r: &Player)
        requires
            self@.well_formed(),
        ensures
            *r == self@.current_player(),
    {
        &self.players[self.turn]
    }

    fn check_turn(&self, user_id: UserId) -> (r: Result<(), GameLogicError>)
        requires
            self@.well_formed(),
        ensures
            r is Ok <==> self@.move_error(user_id) is None,
            r is Err ==> r == Err::<(), GameLogicError>(self@.move_error(user_id)->Some_0),
    {
        if user_id != self.get_current_player().user_id {
            Err(GameLogicError::WrongTurn)
        } else {
            Ok(())
        }
    }

    /// Passes the turn to the next player, who starts with nothing unbanked.
    fn advance_turn(&mut self)
        requires
            old(self).players@.len() >= MIN_PLAYERS,
            old(self).turn < old(self).players@.len(),
        ensures
            final(self).players == old(self).players,
            final(self).is_premium == old(self).is_premium,
            final(self).current_score == 0,
            final(self).turn == old(self)@.next_turn(),
    {
        let n = self.players.len();
        self.current_score = 0;
        self.turn = (self.turn + 1) % n;
    }
}

pub enum GameState {
    New(NewGame),
    Playing(PlayingGame),
}

impl View for GameState {
    type V = SessionView;

    closed spec fn view(&self) -> SessionView {
        match self {
            GameState::New(g) => g@,
            GameState::Playing(g) => g@,
        }
    }
}

impl GameState {
    /// The invariant that every operation keeps.
    pub open spec fn wf(&self) -> bool {
        self@.well_formed()
    }

    pub fn new() -> (r: GameState)
        ensures
            r@ == SessionView::fresh(),
            r.wf(),
    {
        GameState::New(NewGame::new())
    }

    /// Adds the sender to the lobby. `is_premium` tells whether the sender's audience gets
    /// rewritten texts; one such player makes the whole session so.
    pub fn join(
        &mut self,
        user_id: UserId,
        username: Option<String>,
        name: String,
        is_premium: bool,
    ) -> (r: Result<(), GameLogicError>)
        requires
            old(self).wf(),
        ensures
            final(self).wf(),
            r == old(self)@.join_result(user_id),
            final(self)@ == old(self)@.after_join(
                Player { user_id, name, username, score: 0 },
                is_premium,
            ),
            r is Ok ==> final(self)@.players().len() == old(self)@.players().len() + 1,
            r is Err ==> final(self)@ == old(self)@,
    {
        match self {
            GameState::New(new_game) => {
                if has_player(&new_game.players, user_id) {
                    Err(GameLogicError::AlreadyJoined)
                } else {
                    let ghost before = new_game.players@;
                    new_game.players.push(Player { user_id, score: 0, name, username });
                    if is_premium {
                        new_game.is_premium = true;
                    }
                    assert(unique_ids(new_game.players@)) by {
                        assert(forall|k: int|
                            0 <= k < before.len() ==> #[trigger] new_game.players@[k] == before[k]);
                    }
                    Ok(())
                }
            },
            GameState::Playing(_) => Err(GameLogicError::JoinAfterStart),
        }
    }

    /// The game in progress, if there is one.
    pub fn get_playing_game(&self) -> (r: Result<&PlayingGame, GameLogicError>)
        ensures
            self@ is Lobby ==> r == Err::<&PlayingGame, GameLogicError>(GameLogicError::NotPlaying),
            self@ is Playing ==> r is Ok && r->Ok_0@ == self@,
    {
        match self {
            GameState::Playing(playing_game) => Ok(playing_game),
            GameState::New(_) => Err(GameLogicError::NotPlaying),
        }
    }

    /// Discards the session: a fresh lobby with nobody in it.
    pub fn reset(&mut self)
        ensures
            final(self)@ == SessionView::fresh(),
            final(self)@.players().len() == 0,
            final(self).wf(),
    {
        *self = GameState::new();
    }

    /// Starts the game: the lobby's players in a uniformly random order. Returns the player
    /// who moves first.
    pub fn play(&mut self) -> (r: Result<Player, GameLogicError>)
        requires
            old(self).wf(),
        ensures
            final(self).wf(),
            old(self)@.start_result() is Err ==> final(self)@ == old(self)@ && r == Err::<
                Player,
                GameLogicError,
            >(old(self)@.start_result()->Err_0),
            old(self)@.start_result() is Ok ==> final(self)@.is_start_of(old(self)@) && r == Ok::<
                Player,
                GameLogicError,
            >(final(self)@.current_player()),
            old(self)@ is Lobby && old(self)@.players().len() < MIN_PLAYERS ==> r == Err::<
                Player,
                GameLogicError,
            >(GameLogicError::NotEnoughPlayers),
            old(self)@ is Lobby && old(self)@.players().len() >= MIN_PLAYERS ==> {
                &&& final(self)@ is Playing
                &&& final(self)@->Playing_turn == 0
                &&& final(self)@->Playing_current_score == 0
                &&& final(self)@.players().len() == old(self)@.players().len()
                &&& final(self)@.players().to_multiset() == old(self)@.players().to_multiset()
            },
    {
        let mut taken = GameState::new();
        std::mem::swap(self, &mut taken);
        match taken {
            GameState::New(new_game) => {
                if new_game.players.len() >= MIN_PLAYERS {
                    let playing_game = PlayingGame::from(new_game);
                    let first = playing_game.get_current_player().duplicate();
                    *self = GameState::Playing(playing_game);
                    Ok(first)
                } else {
                    *self = GameState::New(new_game);
                    Err(GameLogicError::NotEnoughPlayers)
                }
            },
            GameState::Playing(playing_game) => {
                *self = GameState::Playing(playing_game);
                Err(GameLogicError::AlreadyPlaying)
            },
        }
    }

    /// A roll of the die by `user_id`. A one loses the turn's points and passes the turn; any
    /// other face adds to them, and ends the round once the roller's banked and unbanked points
    /// reach the win threshold (the roller's score then holds them all, and the session is
    /// to be reset).
    pub fn add_dice(&mut self, user_id: UserId, value: u8) -> (r: Result<AddDiceResult, GameLogicError>)
        requires
            old(self).wf(),
            1 <= value <= 6,
        ensures
            r == old(self)@.roll_result(user_id, value),
            final(self)@ == old(self)@.after_roll(user_id, value),
            !(r matches Ok(AddDiceResult::Finished)) ==> final(self).wf(),
            old(self)@ is Lobby ==> r == Err::<AddDiceResult, GameLogicError>(GameLogicError::NotPlaying)
                && final(self)@ == old(self)@,
            old(self)@ is Playing && old(self)@.current_player().user_id != user_id ==> r == Err::<
                AddDiceResult,
                GameLogicError,
            >(GameLogicError::WrongTurn) && final(self)@ == old(self)@,
            old(self)@ is Playing && old(self)@.current_player().user_id == user_id && value
                == LOSING_FACE ==> {
                &&& r matches Ok(AddDiceResult::TurnLost(_, _))
                &&& final(self)@.players() == old(self)@.players()
                &&& final(self)@->Playing_current_score == 0
                &&& final(self)@->Playing_turn == (old(self)@->Playing_turn + 1) % (old(
                    self,
                )@.players().len() as int)
            },
            old(self)@ is Playing && old(self)@.current_player().user_id == user_id && value
                != LOSING_FACE && old(self)@.current_player().score + old(
                self,
            )@->Playing_current_score + value < WIN_SCORE ==> {
                &&& r matches Ok(AddDiceResult::Continue(_, _))
                &&& final(self)@.players() == old(self)@.players()
                &&& final(self)@->Playing_turn == old(self)@->Playing_turn
                &&& final(self)@->Playing_current_score == old(self)@->Playing_current_score + value
            },
            old(self)@ is Playing && old(self)@.current_player().user_id == user_id && value
                != LOSING_FACE && old(self)@.current_player().score + old(
                self,
            )@->Playing_current_score + value >= WIN_SCORE ==> {
                &&& r matches Ok(AddDiceResult::Finished)
                &&& final(self)@.current_player().score == old(self)@.current_player().score + old(
                    self,
                )@->Playing_current_score + value
                &&& final(self)@->Playing_current_score == 0
            },
    {
        match self {
            GameState::New(_) => Err(GameLogicError::NotPlaying),
            GameState::Playing(playing_game) => {
                match playing_game.check_turn(user_id) {
                    Err(e) => {
                        return Err(e);
                    },
                    Ok(()) => {},
                }
                if value == LOSING_FACE {
                    let last_score = playing_game.current_score;
                    playing_game.advance_turn();
                    Ok(AddDiceResult::TurnLost(playing_game.get_current_player().duplicate(), last_score))
                } else {
                    let t = playing_game.turn;
                    playing_game.current_score = playing_game.current_score + value;
                    let total = playing_game.players[t].score + playing_game.current_score;
                    if total >= WIN_SCORE {
                        let mut winner = playing_game.players[t].duplicate();
                        winner.score = total;
                        playing_game.players.set(t, winner);
                        playing_game.current_score = 0;
                        Ok(AddDiceResult::Finished)
                    } else {
                        let roller = playing_game.players[t].duplicate();
                        Ok(AddDiceResult::Continue(roller, playing_game.current_score))
                    }
                }
            },
        }
    }

    /// Banks the turn's points of `user_id` and passes the turn. Returns the new banked total,
    /// the points banked, and the player who moves next.
    pub fn hold(&mut self, user_id: UserId) -> (r: Result<(u8, u8, Player), GameLogicError>)
        requires
            old(self).wf(),
        ensures
            final(self).wf(),
            r == old(self)@.bank_result(user_id),
            final(self)@ == old(self)@.after_bank(user_id),
            old(self)@ is Lobby ==> r == Err::<(u8, u8, Player), GameLogicError>(GameLogicError::NotPlaying)
                && final(self)@ == old(self)@,
            old(self)@ is Playing && old(self)@.current_player().user_id != user_id ==> r == Err::<
                (u8, u8, Player),
                GameLogicError,
            >(GameLogicError::WrongTurn) && final(self)@ == old(self)@,
            old(self)@ is Playing && old(self)@.current_player().user_id == user_id ==> {
                let t = old(self)@->Playing_turn;
                &&& final(self)@.players()[t].score == old(self)@.players()[t].score + old(
                    self,
                )@->Playing_current_score
                &&& final(self)@->Playing_current_score == 0
                &&& final(self)@->Playing_turn == (t + 1) % (old(self)@.players().len() as int)
            },
    {
        match self {
            GameState::New(_) => Err(GameLogicError::NotPlaying),
            GameState::Playing(playing_game) => {
                match playing_game.check_turn(user_id) {
                    Err(e) => {
                        return Err(e);
                    },
                    Ok(()) => {},
                }
                let t = playing_game.turn;
                let turn_score = playing_game.current_score;
                let mut banker = playing_game.players[t].duplicate();
                banker.score = banker.score + turn_score;
                let result = banker.score;
                playing_game.players.set(t, banker);
                playing_game.advance_turn();
                Ok((result, turn_score, playing_game.get_current_player().duplicate()))
            },
        }
    }

    /// The listing of the session: who joined, or everybody's score.
    pub fn send_results(&self) -> (r: MessageAction)
        ensures
            r@ == results_view(self@),
    {
        match self {
            GameState::New(new_game) => new_game.send_players(),
            GameState::Playing(playing_game) => playing_game.send_results(),
        }
    }

    /// Answers a roll of the die with face `dice_value` in `message`.
    pub fn handle_dice(&mut self, message: &Message, dice_value: u8) -> (r: Vec<MessageAction>)
        requires
            old(self).wf(),
        ensures
            final(self).wf(),
            (final(self)@, actions_view(r@)) == dice_outcome(old(self)@, *message, dice_value),
    {
        let is_premium = self.is_premium();
        let mut actions: Vec<MessageAction> = Vec::new();
        match &message.from {
            None => {},
            Some(sender) => {
                if 1 <= dice_value && dice_value <= 6 {
                    match self.add_dice(sender.id, dice_value) {
                        Ok(AddDiceResult::Finished) => {
                            let action = self.send_results();
                            self.reset();
                            actions.push(action);
                        },
                        Ok(AddDiceResult::TurnLost(current_player, last_score)) => {
                            actions.push(
                                plain_message(
                                    String::from_str(turn_lost()),
                                    Some(message.message_id),
                                    Some(turn_lost_hint(&sender.first_name, last_score)),
                                    is_premium,
                                ),
                            );
                            actions.push(
                                plain_message(
                                    next_turn(&current_player.get_mention_string()),
                                    None,
                                    Some(next_turn_hint(&current_player.name)),
                                    is_premium,
                                ),
                            );
                        },
                        Ok(AddDiceResult::Continue(current_player, current_score)) => {
                            let mut text = String::new();
                            push_decimal(&mut text, current_player.score);
                            text.append(" + ");
                            push_decimal(&mut text, current_score);
                            text.append(" = ");
                            push_decimal(&mut text, current_player.score + current_score);
                            actions.push(plain_message(text, Some(message.message_id), None, false));
                        },
                        Err(_) => {},
                    }
                }
            },
        }
        assert(actions_view(actions@) =~= dice_outcome(old(self)@, *message, dice_value).1);
        actions
    }

    /// Answers a command token `command` in `message`. `sender_is_premium` tells whether the
    /// sender's audience gets rewritten texts; it counts when the sender joins.
    pub fn handle_command(
        &mut self,
        message: &Message,
        command: &str,
        sender_is_premium: bool,
    ) -> (r: Vec<MessageAction>)
        requires
            old(self).wf(),
        ensures
            final(self).wf(),
            command_outcome(
                old(self)@,
                final(self)@,
                *message,
                command@,
                sender_is_premium,
                actions_view(r@),
            ),
    {
        let mut actions: Vec<MessageAction> = Vec::new();
        let sender = match &message.from {
            None => {
                assert(actions_view(actions@) =~= Seq::<MessageActionView>::empty());
                return actions;
            },
            Some(sender) => sender,
        };
        match parse_command(command) {
            Some(Command::Join) => {
                let username = clone_text(&sender.username);
                match self.join(sender.id, username, sender.first_name.clone(), sender_is_premium) {
                    Ok(_) => {
                        actions.push(
                            plain_message(
                                String::from_str(joined()),
                                Some(message.message_id),
                                Some(joined_hint(&sender.first_name)),
                                self.is_premium(),
                            ),
                        );
                    },
                    Err(err) => {
                        let reply = err.get_reply_message(
                            message.message_id,
                            sender.first_name.clone(),
                            self.is_premium(),
                        );
                        actions.push(reply);
                    },
                }
            },
            Some(Command::Play) => {
                match self.play() {
                    Ok(current_player) => {
                        actions.push(
                            plain_message(
                                started(&current_player.get_mention_string()),
                                Some(message.message_id),
                                Some(started_hint(&current_player.name)),
                                self.is_premium(),
                            ),
                        );
                    },
                    Err(err) => {
                        let reply = err.get_reply_message(
                            message.message_id,
                            sender.first_name.clone(),
                            self.is_premium(),
                        );
                        actions.push(reply);
                    },
                }
            },
            Some(Command::Hold) => {
                match self.hold(sender.id) {
                    Ok((total_score, turn_score, current_player)) => {
                        actions.push(
                            plain_message(
                                hold(total_score, &current_player.get_mention_string()),
                                Some(message.message_id),
                                Some(hold_hint(&sender.first_name, turn_score, total_score)),
                                self.is_premium(),
                            ),
                        );
                    },
                    Err(err) => {
                        let reply = err.get_reply_message(
                            message.message_id,
                            sender.first_name.clone(),
                            self.is_premium(),
                        );
                        actions.push(reply);
                    },
                }
            },
            Some(Command::Results) => {
                actions.push(self.send_results());
            },
            Some(Command::Reset) => {
                actions.push(
                    MessageAction::Send(
                        MessageInfo {
                            text: String::from_str(reset_confirm()),
                            reply_to_message_id: Some(message.message_id),
                            reply_markup: Some(confirm_keyboard()),
                            hint: Some(reset_confirm_hint(&sender.first_name)),
                            is_premium: self.is_premium(),
                        },
                    ),
                );
            },
            None => {},
        }
        if actions.len() == 0 {
            assert(actions_view(actions@) =~= Seq::<MessageActionView>::empty());
        } else {
            assert(actions_view(actions@) =~= seq![actions@[0]@]);
        }
        actions
    }

    /// Answers the press of a button with payload `data` under `message`.
    pub fn handle_callback_query(
        &mut self,
        message: &Message,
        data: Option<String>,
    ) -> (r: Vec<MessageAction>)
        requires
            old(self).wf(),
        ensures
            final(self).wf(),
            (final(self)@, actions_view(r@)) == callback_outcome(old(self)@, *message, data),
    {
        let mut actions: Vec<MessageAction> = Vec::new();
        match &data {
            Some(command) => {
                if same_text(command.as_str(), "reset") {
                    let is_premium = self.is_premium();
                    self.reset();
                    let mut rows: Vec<Vec<InlineKeyboardButton>> = Vec::new();
                    rows.push(Vec::new());
                    let markup = ReplyMarkup { inline_keyboard: Some(rows) };
                    assert(markup@.inline_keyboard->Some_0 =~= seq![Seq::<ButtonView>::empty()]) by {
                        assert(keyboard_row_view(rows@[0]) =~= Seq::<ButtonView>::empty());
                    }
                    actions.push(
                        MessageAction::Edit(
                            EditMessageInfo {
                                message_id: message.message_id,
                                message_info: MessageInfo {
                                    text: String::from_str(reset()),
                                    reply_to_message_id: None,
                                    reply_markup: Some(markup),
                                    hint: Some(String::from_str(reset_hint())),
                                    is_premium,
                                },
                            },
                        ),
                    );
                }
            },
            None => {},
        }
        assert(actions_view(actions@) =~= callback_outcome(old(self)@, *message, data).1);
        actions
    }

    /// Answers a message in the session's group chat.
    pub fn handle_group_message(
        &mut self,
        message: &Message,
        sender_is_premium: bool,
    ) -> (r: Vec<MessageAction>)
        requires
            old(self).wf(),
        ensures
            final(self).wf(),
            group_message_outcome(
                old(self)@,
                final(self)@,
                *message,
                sender_is_premium,
                actions_view(r@),
            ),
    {
        match &message.dice {
            None => {
                let commands = message.get_commands();
                let ghost names = commands@.map_values(|c: String| c@);
                let mut actions: Vec<MessageAction> = Vec::new();
                let mut i: usize = 0;
                let ghost mut states = seq![self@];
                let ghost mut parts = Seq::<Seq<MessageActionView>>::empty();
                proof {
                    assert(actions_view(actions@) =~= Seq::<MessageActionView>::empty());
                }
                while i < commands.len()
                    invariant
                        self.wf(),
                        i <= commands@.len(),
                        names == commands@.map_values(|c: String| c@),
                        names == message_commands(*message),
                        commands_trace(*message, names.take(i as int), sender_is_premium, states, parts),
                        states[0] == old(self)@,
                        states.last() == self@,
                        actions_view(actions@) == concat_all(parts),
                    decreases commands@.len() - i,
                {
                    let ghost earlier = actions_view(actions@);
                    let mut more = self.handle_command(message, commands[i].as_str(), sender_is_premium);
                    let ghost added = actions_view(more@);
                    actions.append(&mut more);
                    proof {
                        let old_states = states;
                        let old_parts = parts;
                        states = states.push(self@);
                        parts = parts.push(added);
                        assert(parts.drop_last() =~= old_parts);
                        assert(actions_view(actions@) =~= earlier + added);
                        let done = names.take(i + 1);
                        assert forall|k: int| 0 <= k < done.len() implies #[trigger] command_outcome(
                            states[k],
                            states[k + 1],
                            *message,
                            done[k],
                            sender_is_premium,
                            parts[k],
                        ) by {
                            if k < i {
                                assert(names.take(i as int)[k] == done[k]);
                                assert(command_outcome(
                                    old_states[k],
                                    old_states[k + 1],
                                    *message,
                                    names.take(i as int)[k],
                                    sender_is_premium,
                                    old_parts[k],
                                ));
                            } else {
                                assert(done[k] == commands@[i as int]@);
                            }
                        }
                    }
                    i = i + 1;
                }
                assert(names.take(commands@.len() as int) =~= names);
                assert(commands_trace(*message, names, sender_is_premium, states, parts));
                actions
            },
            Some(dice) => {
                if dice.emoji == DiceType::Dice && message.forward_date.is_none() && 1 <= dice.value
                    && dice.value <= 6 {
                    self.handle_dice(message, dice.value as u8)
                } else {
                    let actions: Vec<MessageAction> = Vec::new();
                    assert(actions_view(actions@) =~= Seq::<MessageActionView>::empty());
                    actions
                }
            },
        }
    }

    pub fn is_premium(&self) -> (r: bool)
        ensures
            r == self@.is_premium(),
    {
        match self {
            GameState::New(new_game) => new_game.is_premium,
            GameState::Playing(playing_game) => playing_game.is_premium,
        }
    }
}

} // verus!
