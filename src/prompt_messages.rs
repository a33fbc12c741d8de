//! The texts of the bot's replies, and the hints that describe each reply's context to the
//! delivery side (which may rewrite a reply's tone before it is sent).

use crate::text_messages::{decimal, push_decimal};
use vstd::prelude::*;

verus! {

pub const DEFAULT_SYSTEM_MESSAGE: &'static str = "\
    You are a Persian translator. \
    Be concise. \
    Be very brief. \
    Write up to 3 sentences but keep it short. \
    Use informal language. \
    Free to use emojis.";

pub const GREETING: &'static str = "Add this bot to groups to enjoy the Pig (dice) game!";

pub const ALREADY_JOINED: &'static str = "You have joined already, you can't do it again :)";

pub const JOIN_AFTER_PLAY: &'static str = "Game is already started, you can't join now :(";

pub const GAME_ALREADY_STARTED: &'static str = "Game is already started :(";

pub const NOT_ENOUGH_PLAYER: &'static str = "Not enough players joined yet :(";

pub const GAME_IS_NOT_STARTED: &'static str = "Game is not started yet :(";

pub const NOT_YOUR_TURN: &'static str = "This is not your turn :(";

pub const NOT_JOINED: &'static str = "You are not joined the game so you can't leave :(";

pub const PLAYER_LIST_HINT: &'static str = "\
    List of the players who joined the game provided.\
    Each row contains the name and username in the parenthesis.";

pub const RESULT_HINT: &'static str = "\
    List of the players in the game and their achieved points provided. \
    The game is a Pig dice game. \
    The player with king emoji (if exists) is the winner, \
    say congratulations to the winner (if exists). \
    The one with dice emoji (if exists) is the current player who possesses \
    the turn to roll the dice. \
    Say your opinion about the current state of the game.";

pub const TURN_LOST: &'static str = "Oops! You lost your turn :(";

pub const JOINED: &'static str = "Joined the game successfully!";

pub const PLAYER_LEFT: &'static str = "You left the game.";

pub const RESET_CONFIRM: &'static str = "Are you sure?";

pub const RESET: &'static str = "Game is reset (players should join again).";

pub const RESET_DUE_LACK_OF_PLAYERS: &'static str = "Everybody left :( Game is reset.";

pub const RESET_HINT: &'static str = "The game is a Pig dice game and it's reset.";

/// The instruction for the text rewriter, with the reply's hint appended when there is one.
pub open spec fn system_message_text(extra_info: Option<Seq<char>>) -> Seq<char> {
    match extra_info {
        Some(extra) => DEFAULT_SYSTEM_MESSAGE@ + "\n(Extra info: "@ + extra + ")"@,
        None => DEFAULT_SYSTEM_MESSAGE@,
    }
}

pub fn system_message(extra_info: &Option<String>) -> (r: String)
    ensures
        r@ == system_message_text(
            match extra_info {
                Some(e) => Some(e@),
                None => None,
            },
        ),
{
    let mut r = String::from_str(DEFAULT_SYSTEM_MESSAGE);
    match extra_info {
        Some(extra) => {
            r.append("\n(Extra info: ");
            r.append(extra.as_str());
            r.append(")");
        },
        None => {},
    }
    r
}

#[verifier::allow_in_spec]
pub fn greeting() -> &'static str
    returns
        GREETING,
{
    GREETING
}

pub open spec fn audience_hint_text(name: Seq<char>) -> Seq<char> {
    "Audience name is "@ + name + "."@
}

fn audience_hint(name: &String) -> (r: String)
    ensures
        r@ == audience_hint_text(name@),
{
    let mut r = String::from_str("Audience name is ");
    r.append(name.as_str());
    r.append(".");
    r
}

pub fn greeting_hint(name: &String) -> (r: String)
    ensures
        r@ == audience_hint_text(name@),
{
    audience_hint(name)
}

#[verifier::allow_in_spec]
pub fn already_joined() -> &'static str
    returns
        ALREADY_JOINED,
{
    ALREADY_JOINED
}

#[verifier::allow_in_spec]
pub fn join_after_play() -> &'static str
    returns
        JOIN_AFTER_PLAY,
{
    JOIN_AFTER_PLAY
}

#[verifier::allow_in_spec]
pub fn game_already_started() -> &'static str
    returns
        GAME_ALREADY_STARTED,
{
    GAME_ALREADY_STARTED
}

#[verifier::allow_in_spec]
pub fn not_enough_player() -> &'static str
    returns
        NOT_ENOUGH_PLAYER,
{
    NOT_ENOUGH_PLAYER
}

#[verifier::allow_in_spec]
pub fn game_is_not_started() -> &'static str
    returns
        GAME_IS_NOT_STARTED,
{
    GAME_IS_NOT_STARTED
}

#[verifier::allow_in_spec]
pub fn not_your_turn() -> &'static str
    returns
        NOT_YOUR_TURN,
{
    NOT_YOUR_TURN
}

#[verifier::allow_in_spec]
pub fn not_joined() -> &'static str
    returns
        NOT_JOINED,
{
    NOT_JOINED
}

pub fn game_logic_error_hint(name: &String) -> (r: String)
    ensures
        r@ == audience_hint_text(name@),
{
    audience_hint(name)
}

#[verifier::allow_in_spec]
pub fn player_list_hint() -> &'static str
    returns
        PLAYER_LIST_HINT,
{
    PLAYER_LIST_HINT
}

#[verifier::allow_in_spec]
pub fn result_hint() -> &'static str
    returns
        RESULT_HINT,
{
    RESULT_HINT
}

#[verifier::allow_in_spec]
pub fn turn_lost() -> &'static str
    returns
        TURN_LOST,
{
    TURN_LOST
}

pub open spec fn turn_lost_hint_text(name: Seq<char>, last_score: nat) -> Seq<char> {
    name + " lost the turn after rolling a \"one\" by the dice. \
        The game is a Pig dice game and the player lost the turn after adding "@ + decimal(
        last_score,
    ) + " by \
        the previous rolled dice results during the turn. \
        Say your opinion about the player's performance during the last turn and \
        how lucky the player was."@
}

pub fn turn_lost_hint(name: &String, last_score: u8) -> (r: String)
    ensures
        r@ == turn_lost_hint_text(name@, last_score as nat),
{
    let mut r = name.clone();
    r.append(
        " lost the turn after rolling a \"one\" by the dice. \
        The game is a Pig dice game and the player lost the turn after adding ",
    );
    push_decimal(&mut r, last_score);
    r.append(
        " by \
        the previous rolled dice results during the turn. \
        Say your opinion about the player's performance during the last turn and \
        how lucky the player was.",
    );
    r
}

pub open spec fn next_turn_text(player_name: Seq<char>) -> Seq<char> {
    "It's "@ + player_name + " turn to roll the dice."@
}

pub fn next_turn(player_name: &String) -> (r: String)
    ensures
        r@ == next_turn_text(player_name@),
{
    let mut r = String::from_str("It's ");
    r.append(player_name.as_str());
    r.append(" turn to roll the dice.");
    r
}

pub open spec fn next_turn_hint_text(name: Seq<char>) -> Seq<char> {
    "The game is a Pig dice game and \
        now it's "@ + name + " turn to roll the dice."@
}

pub fn next_turn_hint(name: &String) -> (r: String)
    ensures
        r@ == next_turn_hint_text(name@),
{
    let mut r = String::from_str(
        "The game is a Pig dice game and \
        now it's ",
    );
    r.append(name.as_str());
    r.append(" turn to roll the dice.");
    r
}

#[verifier::allow_in_spec]
pub fn joined() -> &'static str
    returns
        JOINED,
{
    JOINED
}

pub open spec fn joined_hint_text(name: Seq<char>) -> Seq<char> {
    "The game is a Pig dice game and "@ + name + " joined the game."@
}

pub fn joined_hint(name: &String) -> (r: String)
    ensures
        r@ == joined_hint_text(name@),
{
    let mut r = String::from_str("The game is a Pig dice game and ");
    r.append(name.as_str());
    r.append(" joined the game.");
    r
}

#[verifier::allow_in_spec]
pub fn player_left() -> &'static str
    returns
        PLAYER_LEFT,
{
    PLAYER_LEFT
}

pub open spec fn player_left_hint_text(name: Seq<char>, score: nat) -> Seq<char> {
    "The game is a Pig dice game and "@ + name + " left the game with "@ + decimal(score)
        + " points. Say your opinion."@
}

pub fn player_left_hint(name: &String, score: u8) -> (r: String)
    ensures
        r@ == player_left_hint_text(name@, score as nat),
{
    let mut r = String::from_str("The game is a Pig dice game and ");
    r.append(name.as_str());
    r.append(" left the game with ");
    push_decimal(&mut r, score);
    r.append(" points. Say your opinion.");
    r
}

pub open spec fn started_text(player_name: Seq<char>) -> Seq<char> {
    "The game has just started. Turn: "@ + player_name + "."@
}

pub fn started(player_name: &String) -> (r: String)
    ensures
        r@ == started_text(player_name@),
{
    let mut r = String::from_str("The game has just started. Turn: ");
    r.append(player_name.as_str());
    r.append(".");
    r
}

pub open spec fn started_hint_text(name: Seq<char>) -> Seq<char> {
    "The game is a Pig dice game. Game has just started. "@ + name
        + " is the first player to roll the dice."@
}

pub fn started_hint(name: &String) -> (r: String)
    ensures
        r@ == started_hint_text(name@),
{
    let mut r = String::from_str("The game is a Pig dice game. Game has just started. ");
    r.append(name.as_str());
    r.append(" is the first player to roll the dice.");
    r
}

pub open spec fn hold_text(score: nat, next_player: Seq<char>) -> Seq<char> {
    "Your total score is "@ + decimal(score) + ". Next turn: "@ + next_player
}

pub fn hold(score: u8, next_player: &String) -> (r: String)
    ensures
        r@ == hold_text(score as nat, next_player@),
{
    let mut r = String::from_str("Your total score is ");
    push_decimal(&mut r, score);
    r.append(". Next turn: ");
    r.append(next_player.as_str());
    r
}

pub open spec fn hold_hint_text(name: Seq<char>, turn_score: nat, total_score: nat) -> Seq<
    char,
> {
    "The game is a Pig dice game. "@ + name
        + " decided to hold their achieved points and pass the dice \
        to the next player. The player achieved "@ + decimal(turn_score)
        + " points during the turn and now got "@ + decimal(total_score)
        + " points in total. Tell your opinion about this decision."@
}

pub fn hold_hint(name: &String, turn_score: u8, total_score: u8) -> (r: String)
    ensures
        r@ == hold_hint_text(name@, turn_score as nat, total_score as nat),
{
    let mut r = String::from_str("The game is a Pig dice game. ");
    r.append(name.as_str());
    r.append(
        " decided to hold their achieved points and pass the dice \
        to the next player. The player achieved ",
    );
    push_decimal(&mut r, turn_score);
    r.append(" points during the turn and now got ");
    push_decimal(&mut r, total_score);
    r.append(" points in total. Tell your opinion about this decision.");
    r
}

#[verifier::allow_in_spec]
pub fn reset_confirm() -> &'static str
    returns
        RESET_CONFIRM,
{
    RESET_CONFIRM
}

pub open spec fn reset_confirm_hint_text(name: Seq<char>) -> Seq<char> {
    name + " wants to reset the game."@
}

pub fn reset_confirm_hint(name: &String) -> (r: String)
    ensures
        r@ == reset_confirm_hint_text(name@),
{
    let mut r = name.clone();
    r.append(" wants to reset the game.");
    r
}

#[verifier::allow_in_spec]
pub fn reset() -> &'static str
    returns
        RESET,
{
    RESET
}

#[verifier::allow_in_spec]
pub fn reset_due_lack_of_players() -> &'static str
    returns
        RESET_DUE_LACK_OF_PLAYERS,
{
    RESET_DUE_LACK_OF_PLAYERS
}

#[verifier::allow_in_spec]
pub fn reset_hint() -> &'static str
    returns
        RESET_HINT,
{
    RESET_HINT
}

} // verus!
