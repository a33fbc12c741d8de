//! Plain values of the chat platform's updates and messages that the game reads or writes.

use crate::text_messages::same_text;
use vstd::prelude::*;
use vstd::string::StringSliceAdditionalSpecFns;
use vstd::utf8::{
    decode_utf8, encode_utf8, encode_utf8_decode_utf8, encode_utf8_valid_utf8,
    is_char_boundary, is_char_boundary_iff_not_is_continuation_byte,
    is_char_boundary_start_end_of_seq, valid_utf8,
};

verus! {

/// A message's number within its chat.
#[derive(Clone, Copy, PartialEq, Eq, Structural, Debug, Hash)]
pub struct MessageId(pub i64);

/// A user's identity; a player's identity in a session.
#[derive(Clone, Copy, PartialEq, Eq, Structural, Debug, Hash)]
pub struct UserId(pub i64);

/// A chat's identity; the key of its session.
#[derive(Clone, Copy, PartialEq, Eq, Structural, Debug, Hash)]
pub struct ChatId(pub i64);

/// An update's sequence number.
#[derive(Clone, Copy, PartialEq, Eq, Structural, Debug, Hash)]
pub struct UpdateId(pub i64);

/// The sender of a message or of a button press.
pub struct User {
    pub id: UserId,
    pub first_name: String,
    pub last_name: Option<String>,
    pub username: Option<String>,
}

#[derive(Clone, Copy, PartialEq, Eq, Structural, Debug)]
/// Only group chats host games; private chats get a greeting.
pub enum ChatType {
    Private,
    Group,
    SuperGroup,
    Unknown,
}

/// The chat a message was posted in; each chat has its own session.
pub struct Chat {
    pub id: ChatId,
    pub chat_type: ChatType,
    pub username: Option<String>,
}

/// A marked span of a message's text, counted in UTF-8 bytes.
pub struct MessageEntity {
    pub offset: usize,
    pub length: usize,
    pub entity_type: String,
}

/// The animated emoji a die message was sent with; only `Dice` is a six-sided die.
#[derive(Clone, Copy, PartialEq, Eq, Structural, Debug)]
pub enum DiceType {
    Dice,
    Dart,
    Bowling,
    Basketball,
    Football,
    SlotMachine,
    Unknown,
}

/// An animated die sent as a message, with the face it shows.
pub struct Dice {
    pub emoji: DiceType,
    pub value: i64,
}

/// A button shown under a message; pressing it sends `callback_data` back.
pub struct InlineKeyboardButton {
    pub text: String,
    pub callback_data: Option<String>,
}

/// The rows of buttons shown under a message.
pub struct ReplyMarkup {
    pub inline_keyboard: Option<Vec<Vec<InlineKeyboardButton>>>,
}

/// An incoming message: a text with marked commands, or a die.
pub struct Message {
    pub message_id: MessageId,
    pub from: Option<User>,
    pub chat: Chat,
    pub text: Option<String>,
    pub dice: Option<Dice>,
    pub entities: Option<Vec<MessageEntity>>,
    pub forward_date: Option<i64>,
}

/// The command that entity `e` marks in `text`: the characters of the bytes it spans, when
/// it is a bot command and spans whole characters of the text. Offsets count UTF-8 bytes.
pub open spec fn entity_command(text: Seq<char>, e: MessageEntity) -> Option<Seq<char>> {
    let bytes = encode_utf8(text);
    if e.entity_type@ == "bot_command"@ && e.offset + e.length <= bytes.len() && is_char_boundary(
        bytes,
        e.offset as int,
    ) && is_char_boundary(bytes, e.offset + e.length) {
        Some(decode_utf8(bytes.subrange(e.offset as int, e.offset + e.length)))
    } else {
        None
    }
}

/// The commands that the first `k` of `entities` mark in `text`, in order.
pub open spec fn commands_in(text: Seq<char>, entities: Seq<MessageEntity>, k: int) -> Seq<Seq<char>>
    decreases k,
{
    if k <= 0 {
        Seq::empty()
    } else {
        commands_in(text, entities, k - 1) + match entity_command(text, entities[k - 1]) {
            Some(c) => seq![c],
            None => Seq::empty(),
        }
    }
}

/// The commands of a message, in the order of its entities.
pub open spec fn message_commands(m: Message) -> Seq<Seq<char>> {
    match (m.entities, m.text) {
        (Some(entities), Some(text)) => commands_in(text@, entities@, entities@.len() as int),
        _ => Seq::empty(),
    }
}

/// Within a valid byte sequence, an index counted from a character boundary `off` is a
/// boundary of the rest exactly when it is one of the whole.
proof fn lemma_boundary_in_rest(bytes: Seq<u8>, off: int, k: int)
    requires
        valid_utf8(bytes),
        0 <= off <= bytes.len(),
        is_char_boundary(bytes, off),
        valid_utf8(bytes.subrange(off, bytes.len() as int)),
        0 <= k <= bytes.len() - off,
    ensures
        is_char_boundary(bytes.subrange(off, bytes.len() as int), k) == is_char_boundary(
            bytes,
            off + k,
        ),
{
    let rest = bytes.subrange(off, bytes.len() as int);
    is_char_boundary_start_end_of_seq(rest);
    is_char_boundary_start_end_of_seq(bytes);
    if 0 < k < rest.len() {
        is_char_boundary_iff_not_is_continuation_byte(rest, k);
        is_char_boundary_iff_not_is_continuation_byte(bytes, off + k);
    }
}

impl Message {
    /// The bot commands that the message's entities mark in its text, in order. An entity
    /// that does not span whole characters of the text is passed over.
    pub fn get_commands(&self) -> (r: Vec<String>)
        ensures
            r@.map_values(|c: String| c@) == message_commands(*self),
    {
        let mut r: Vec<String> = Vec::new();
        match (&self.entities, &self.text) {
            (Some(entities), Some(text)) => {
                let s = text.as_str();
                let ghost bytes = encode_utf8(text@);
                proof {
                    encode_utf8_valid_utf8(text@);
                }
                let mut i: usize = 0;
                while i < entities.len()
                    invariant
                        i <= entities@.len(),
                        s@ == text@,
                        s.spec_bytes() == bytes,
                        bytes == encode_utf8(text@),
                        valid_utf8(bytes),
                        r@.map_values(|c: String| c@) == commands_in(text@, entities@, i as int),
                    decreases entities@.len() - i,
                {
                    let e = &entities[i];
                    let is_command = same_text(e.entity_type.as_str(), "bot_command");
                    let starts_in = e.offset <= s.as_bytes().len() && s.is_char_boundary(e.offset);
                    if is_command && starts_in {
                        let (_, rest) = s.split_at(e.offset);
                        proof {
                            encode_utf8_valid_utf8(rest@);
                            if e.length <= rest.spec_bytes().len() {
                                lemma_boundary_in_rest(bytes, e.offset as int, e.length as int);
                            }
                        }
                        if e.length <= rest.as_bytes().len() && rest.is_char_boundary(e.length) {
                            let (command, _) = rest.split_at(e.length);
                            proof {
                                encode_utf8_decode_utf8(command@);
                                assert(command.spec_bytes() =~= bytes.subrange(
                                    e.offset as int,
                                    e.offset + e.length,
                                ));
                            }
                            r.push(command.to_owned());
                            assert(entity_command(text@, *e) == Some(command@));
                        } else {
                            assert(rest.spec_bytes() =~= bytes.subrange(e.offset as int, bytes.len() as int));
                            assert(entity_command(text@, *e) is None);
                        }
                    } else {
                        assert(entity_command(text@, *e) is None);
                    }
                    assert(r@.map_values(|c: String| c@) =~= commands_in(
                        text@,
                        entities@,
                        i + 1,
                    ));
                    i = i + 1;
                }
            },
            _ => {},
        }
        proof {
            if !(self.entities is Some && self.text is Some) {
                assert(r@.map_values(|c: String| c@) =~= Seq::<Seq<char>>::empty());
            }
        }
        r
    }
}

/// A press of a button under one of the bot's messages.
pub struct CallbackQuery {
    pub id: String,
    pub from: User,
    pub message: Option<Message>,
    pub data: Option<String>,
}

/// One event that the platform delivers: a new message or a button press.
pub struct Update {
    pub update_id: UpdateId,
    pub message: Option<Message>,
    pub callback_query: Option<CallbackQuery>,
}

/// The platform's answer to a sent or edited message.
pub struct ResultMessage {
    pub ok: bool,
    pub result: Message,
}

} // verus!
