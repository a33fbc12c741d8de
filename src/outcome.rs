//! What the game says: the texts it renders from a session, and the messages that each
//! incoming event yields, in order.

use crate::game_model::{AddDiceResult, GameLogicError, Player};
use crate::message_action::{ButtonView, MessageActionView, MessageInfoView, ReplyMarkupView};
use crate::model::{SessionView, WIN_SCORE};
use crate::prompt_messages::{
    audience_hint_text, hold_hint_text, hold_text, joined_hint_text, next_turn_hint_text,
    next_turn_text, reset_confirm_hint_text, started_hint_text, started_text, turn_lost_hint_text,
    ALREADY_JOINED, GAME_ALREADY_STARTED, GAME_IS_NOT_STARTED, GREETING, JOINED, JOIN_AFTER_PLAY,
    NOT_ENOUGH_PLAYER, NOT_YOUR_TURN, PLAYER_LIST_HINT, RESET, RESET_CONFIRM, RESET_HINT,
    RESULT_HINT, TURN_LOST,
};
use crate::telegram_types::{message_commands, DiceType, Message, MessageId};
use crate::text_messages::{decimal, DICE_EMOJI, KING_EMOJI};
use vstd::prelude::*;

verus! {

/// How a player is addressed: `@handle` when there is one, else the display name.
pub open spec fn mention_text(p: Player) -> Seq<char> {
    match p.username {
        Some(u) => "@"@ + u@,
        None => p.name@,
    }
}

/// How a player is listed: the display name, the handle in parentheses when there is one,
/// and the banked score after a colon when `with_score` holds.
pub open spec fn show_text(p: Player, with_score: bool) -> Seq<char> {
    let name = match p.username {
        Some(u) => p.name@ + " ("@ + u@ + ")"@,
        None => p.name@,
    };
    if with_score {
        name + ": "@ + decimal(p.score as nat)
    } else {
        name
    }
}

/// One line per player of the first `k` of `players`, names only.
pub open spec fn player_lines(players: Seq<Player>, k: int) -> Seq<char>
    decreases k,
{
    if k <= 0 {
        Seq::empty()
    } else {
        player_lines(players, k - 1) + "\n- "@ + show_text(players[k - 1], false)
    }
}

/// The lobby's listing.
pub open spec fn players_text(players: Seq<Player>) -> Seq<char> {
    if players.len() == 0 {
        "No players!"@
    } else {
        "Players:"@ + player_lines(players, players.len() as int)
    }
}

/// A player's line in the score listing: a crown for a score at the win threshold, else a die
/// for the player whose turn it is.
pub open spec fn score_line(p: Player, is_current: bool) -> Seq<char> {
    if p.score >= WIN_SCORE {
        "\n- "@ + KING_EMOJI@ + " "@ + show_text(p, true)
    } else if is_current {
        "\n- "@ + DICE_EMOJI@ + " "@ + show_text(p, true)
    } else {
        "\n- "@ + show_text(p, true)
    }
}

/// The score lines of the first `k` of `players`.
pub open spec fn score_lines(players: Seq<Player>, turn: int, k: int) -> Seq<char>
    decreases k,
{
    if k <= 0 {
        Seq::empty()
    } else {
        score_lines(players, turn, k - 1) + score_line(players[k - 1], k - 1 == turn)
    }
}

/// A new message without buttons.
pub open spec fn send_view(
    text: Seq<char>,
    reply_to: Option<MessageId>,
    hint: Option<Seq<char>>,
    is_premium: bool,
) -> MessageActionView {
    MessageActionView::Send(
        MessageInfoView { text, reply_to_message_id: reply_to, reply_markup: None, hint, is_premium },
    )
}

/// The listing of a session: who joined, or everybody's score.
pub open spec fn results_view(s: SessionView) -> MessageActionView {
    match s {
        SessionView::Lobby { players, is_premium } => send_view(
            players_text(players),
            None,
            Some(PLAYER_LIST_HINT@),
            is_premium,
        ),
        SessionView::Playing { players, turn, is_premium, .. } => send_view(
            "Scores:"@ + score_lines(players, turn, players.len() as int),
            None,
            Some(RESULT_HINT@),
            is_premium,
        ),
    }
}

pub open spec fn error_text(e: GameLogicError) -> Seq<char> {
    match e {
        GameLogicError::JoinAfterStart => JOIN_AFTER_PLAY@,
        GameLogicError::AlreadyJoined => ALREADY_JOINED@,
        GameLogicError::AlreadyPlaying => GAME_ALREADY_STARTED@,
        GameLogicError::NotEnoughPlayers => NOT_ENOUGH_PLAYER@,
        GameLogicError::NotPlaying => GAME_IS_NOT_STARTED@,
        GameLogicError::WrongTurn => NOT_YOUR_TURN@,
    }
}

/// The reply that tells `audience_name` why the request was refused.
pub open spec fn error_reply_view(
    e: GameLogicError,
    reply_to: MessageId,
    audience_name: Seq<char>,
    is_premium: bool,
) -> MessageActionView {
    send_view(error_text(e), Some(reply_to), Some(audience_hint_text(audience_name)), is_premium)
}

/// The reply to a roll that the roller may follow with another: banked plus unbanked points.
pub open spec fn continue_text(banked: nat, unbanked: nat) -> Seq<char> {
    decimal(banked) + " + "@ + decimal(unbanked) + " = "@ + decimal(banked + unbanked)
}

/// What a roll of `value` in `message` does to session `s`, and the messages it yields.
/// Rolls without a sender, outside the die's faces, or refused by the session yield nothing.
pub open spec fn dice_outcome(s: SessionView, message: Message, value: u8) -> (
    SessionView,
    Seq<MessageActionView>,
) {
    match message.from {
        None => (s, Seq::empty()),
        Some(sender) => if !(1 <= value <= 6) {
            (s, Seq::empty())
        } else {
            let mid = message.message_id;
            match s.roll_result(sender.id, value) {
                Err(_) => (s, Seq::empty()),
                Ok(AddDiceResult::Finished) => (
                    SessionView::fresh(),
                    seq![results_view(s.after_roll(sender.id, value))],
                ),
                Ok(AddDiceResult::TurnLost(next, last_score)) => (
                    s.after_roll(sender.id, value),
                    seq![
                        send_view(
                            TURN_LOST@,
                            Some(mid),
                            Some(turn_lost_hint_text(sender.first_name@, last_score as nat)),
                            s.is_premium(),
                        ),
                        send_view(
                            next_turn_text(mention_text(next)),
                            None,
                            Some(next_turn_hint_text(next.name@)),
                            s.is_premium(),
                        ),
                    ],
                ),
                Ok(AddDiceResult::Continue(p, unbanked)) => (
                    s.after_roll(sender.id, value),
                    seq![
                        send_view(
                            continue_text(p.score as nat, unbanked as nat),
                            Some(mid),
                            None,
                            false,
                        ),
                    ],
                ),
            }
        },
    }
}

/// The commands that the game answers.
pub enum Command {
    Join,
    Play,
    Hold,
    Results,
    Reset,
}

/// The command that a command token names, with or without the bot's name appended.
pub open spec fn command_of(c: Seq<char>) -> Option<Command> {
    if c == "/join"@ || c == "/join@piiigdicegamebot"@ {
        Some(Command::Join)
    } else if c == "/play"@ || c == "/play@piiigdicegamebot"@ {
        Some(Command::Play)
    } else if c == "/hold"@ || c == "/hold@piiigdicegamebot"@ {
        Some(Command::Hold)
    } else if c == "/result"@ || c == "/result@piiigdicegamebot"@ {
        Some(Command::Results)
    } else if c == "/reset"@ || c == "/reset@piiigdicegamebot"@ {
        Some(Command::Reset)
    } else {
        None
    }
}

/// The one button under a reset request, which confirms it.
pub open spec fn confirm_markup() -> ReplyMarkupView {
    ReplyMarkupView {
        inline_keyboard: Some(seq![seq![ButtonView { text: "Yes"@, callback_data: Some("reset"@) }]]),
    }
}

/// Session `s` becomes `t` and `acts` are sent when `command` comes in `message`;
/// `premium` tells whether the sender's audience gets rewritten texts.
pub open spec fn command_outcome(
    s: SessionView,
    t: SessionView,
    message: Message,
    command: Seq<char>,
    premium: bool,
    acts: Seq<MessageActionView>,
) -> bool {
    match message.from {
        None => t == s && acts == Seq::<MessageActionView>::empty(),
        Some(sender) => {
            let mid = message.message_id;
            let name = sender.first_name@;
            match command_of(command) {
                None => t == s && acts == Seq::<MessageActionView>::empty(),
                Some(Command::Join) => {
                    &&& t == s.after_join(
                        Player {
                            user_id: sender.id,
                            name: sender.first_name,
                            username: sender.username,
                            score: 0,
                        },
                        premium,
                    )
                    &&& acts == seq![
                        match s.join_result(sender.id) {
                            Ok(_) => send_view(
                                JOINED@,
                                Some(mid),
                                Some(joined_hint_text(name)),
                                t.is_premium(),
                            ),
                            Err(e) => error_reply_view(e, mid, name, t.is_premium()),
                        },
                    ]
                },
                Some(Command::Play) => match s.start_result() {
                    Ok(_) => {
                        &&& t.is_start_of(s)
                        &&& acts == seq![
                            send_view(
                                started_text(mention_text(t.current_player())),
                                Some(mid),
                                Some(started_hint_text(t.current_player().name@)),
                                t.is_premium(),
                            ),
                        ]
                    },
                    Err(e) => t == s && acts == seq![error_reply_view(e, mid, name, s.is_premium())],
                },
                Some(Command::Hold) => {
                    &&& t == s.after_bank(sender.id)
                    &&& acts == seq![
                        match s.bank_result(sender.id) {
                            Ok((total, banked, next)) => send_view(
                                hold_text(total as nat, mention_text(next)),
                                Some(mid),
                                Some(hold_hint_text(name, banked as nat, total as nat)),
                                t.is_premium(),
                            ),
                            Err(e) => error_reply_view(e, mid, name, t.is_premium()),
                        },
                    ]
                },
                Some(Command::Results) => t == s && acts == seq![results_view(s)],
                Some(Command::Reset) => t == s && acts == seq![
                    MessageActionView::Send(
                        MessageInfoView {
                            text: RESET_CONFIRM@,
                            reply_to_message_id: Some(mid),
                            reply_markup: Some(confirm_markup()),
                            hint: Some(reset_confirm_hint_text(name)),
                            is_premium: s.is_premium(),
                        },
                    ),
                ],
            }
        },
    }
}

/// What pressing a button with payload `data` under `message` does: the confirmation of a
/// reset resets the session and turns the request into a notice without buttons.
pub open spec fn callback_outcome(s: SessionView, message: Message, data: Option<String>) -> (
    SessionView,
    Seq<MessageActionView>,
) {
    if data is Some && data->Some_0@ == "reset"@ {
        (
            SessionView::fresh(),
            seq![
                MessageActionView::Edit(
                    message.message_id,
                    MessageInfoView {
                        text: RESET@,
                        reply_to_message_id: None,
                        reply_markup: Some(
                            ReplyMarkupView { inline_keyboard: Some(seq![Seq::empty()]) },
                        ),
                        hint: Some(RESET_HINT@),
                        is_premium: s.is_premium(),
                    },
                ),
            ],
        )
    } else {
        (s, Seq::empty())
    }
}

/// The messages of all `parts`, in order.
pub open spec fn concat_all(parts: Seq<Seq<MessageActionView>>) -> Seq<MessageActionView>
    decreases parts.len(),
{
    if parts.len() == 0 {
        Seq::empty()
    } else {
        concat_all(parts.drop_last()) + parts.last()
    }
}

/// `states` are the sessions before and after each of `commands`, answered in turn, and
/// `parts` what each answer sent.
pub open spec fn commands_trace(
    message: Message,
    commands: Seq<Seq<char>>,
    premium: bool,
    states: Seq<SessionView>,
    parts: Seq<Seq<MessageActionView>>,
) -> bool {
    &&& states.len() == commands.len() + 1
    &&& parts.len() == commands.len()
    &&& forall|k: int|
        0 <= k < commands.len() ==> #[trigger] command_outcome(
            states[k],
            states[k + 1],
            message,
            commands[k],
            premium,
            parts[k],
        )
}

/// Session `s` becomes `t` and `acts` are sent when `commands` come in `message`, answered one
/// after another.
pub open spec fn commands_outcome(
    s: SessionView,
    t: SessionView,
    message: Message,
    commands: Seq<Seq<char>>,
    premium: bool,
    acts: Seq<MessageActionView>,
) -> bool {
    exists|states: Seq<SessionView>, parts: Seq<Seq<MessageActionView>>|
        #[trigger] commands_trace(message, commands, premium, states, parts) && states[0] == s
            && states.last() == t && acts == concat_all(parts)
}

/// Session `s` becomes `t` and `acts` are sent when `message` comes in a group chat: a roll of
/// the six-sided die that was not forwarded is played, anything else is read for commands.
pub open spec fn group_message_outcome(
    s: SessionView,
    t: SessionView,
    message: Message,
    premium: bool,
    acts: Seq<MessageActionView>,
) -> bool {
    match message.dice {
        None => commands_outcome(s, t, message, message_commands(message), premium, acts),
        Some(dice) => if dice.emoji == DiceType::Dice && message.forward_date is None && 1
            <= dice.value <= 6 {
            (t, acts) == dice_outcome(s, message, dice.value as u8)
        } else {
            t == s && acts == Seq::<MessageActionView>::empty()
        },
    }
}

/// The answer to a message in a private chat: an invitation to play in groups.
pub open spec fn greeting_view(message: Message, premium: bool) -> MessageActionView {
    match message.from {
        Some(sender) => send_view(
            GREETING@,
            None,
            Some(audience_hint_text(sender.first_name@)),
            premium,
        ),
        None => send_view(GREETING@, None, None, false),
    }
}

} // verus!
