//! The abstract output events of the game: messages to send and messages to edit.

use crate::telegram_types::{InlineKeyboardButton, MessageId, ReplyMarkup};
use vstd::prelude::*;

verus! {

pub struct MessageInfo {
    pub text: String,
    pub reply_to_message_id: Option<MessageId>,
    pub reply_markup: Option<ReplyMarkup>,
    /// Context for the delivery side; never part of the text that is sent.
    pub hint: Option<String>,
    /// Whether the audience may get the text rewritten before delivery.
    pub is_premium: bool,
}

pub struct EditMessageInfo {
    pub message_id: MessageId,
    pub message_info: MessageInfo,
}

pub enum MessageAction {
    Send(MessageInfo),
    Edit(EditMessageInfo),
}

pub struct ButtonView {
    pub text: Seq<char>,
    pub callback_data: Option<Seq<char>>,
}

pub struct ReplyMarkupView {
    pub inline_keyboard: Option<Seq<Seq<ButtonView>>>,
}

pub struct MessageInfoView {
    pub text: Seq<char>,
    pub reply_to_message_id: Option<MessageId>,
    pub reply_markup: Option<ReplyMarkupView>,
    pub hint: Option<Seq<char>>,
    pub is_premium: bool,
}

pub enum MessageActionView {
    Send(MessageInfoView),
    Edit(MessageId, MessageInfoView),
}

/// The characters of an optional string.
pub open spec fn opt_text(s: Option<String>) -> Option<Seq<char>> {
    match s {
        Some(t) => Some(t@),
        None => None,
    }
}

impl View for InlineKeyboardButton {
    type V = ButtonView;

    open spec fn view(&self) -> ButtonView {
        ButtonView { text: self.text@, callback_data: opt_text(self.callback_data) }
    }
}

pub open spec fn keyboard_row_view(row: Vec<InlineKeyboardButton>) -> Seq<ButtonView> {
    row@.map_values(|b: InlineKeyboardButton| b@)
}

impl View for ReplyMarkup {
    type V = ReplyMarkupView;

    open spec fn view(&self) -> ReplyMarkupView {
        ReplyMarkupView {
            inline_keyboard: match self.inline_keyboard {
                Some(rows) => Some(
                    rows@.map_values(|row: Vec<InlineKeyboardButton>| keyboard_row_view(row)),
                ),
                None => None,
            },
        }
    }
}

impl View for MessageInfo {
    type V = MessageInfoView;

    open spec fn view(&self) -> MessageInfoView {
        MessageInfoView {
            text: self.text@,
            reply_to_message_id: self.reply_to_message_id,
            reply_markup: match self.reply_markup {
                Some(m) => Some(m@),
                None => None,
            },
            hint: opt_text(self.hint),
            is_premium: self.is_premium,
        }
    }
}

impl View for MessageAction {
    type V = MessageActionView;

    open spec fn view(&self) -> MessageActionView {
        match self {
            MessageAction::Send(info) => MessageActionView::Send(info@),
            MessageAction::Edit(e) => MessageActionView::Edit(e.message_id, e.message_info@),
        }
    }
}

/// The views of a list of actions, in order.
pub open spec fn actions_view(actions: Seq<MessageAction>) -> Seq<MessageActionView> {
    actions.map_values(|a: MessageAction| a@)
}

} // verus!
