//! Game logic of a chat bot that hosts the Pig dice game, one session per group chat.

pub mod game_model;
pub mod message_action;
pub mod model;
pub mod outcome;
pub mod prompt_messages;
pub mod stream_edit;
pub mod telegram_types;
pub mod text_messages;
