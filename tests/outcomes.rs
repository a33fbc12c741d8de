use pig_dice::game_model::{greeting_message, GameState, Player};
use pig_dice::message_action::{MessageAction, MessageInfo};
use pig_dice::prompt_messages;
use pig_dice::telegram_types::{
    Chat, ChatId, ChatType, Dice, DiceType, Message, MessageEntity, MessageId, User, UserId,
};
use pig_dice::text_messages::decimal_string;

fn user(n: i64, handle: Option<&str>) -> User {
    User {
        id: UserId(n),
        first_name: format!("Name{}", n),
        last_name: None,
        username: handle.map(|h| h.to_string()),
    }
}

fn message(id: i64, from: Option<User>) -> Message {
    Message {
        message_id: MessageId(id),
        from,
        chat: Chat {
            id: ChatId(-5),
            chat_type: ChatType::Group,
            username: None,
        },
        text: None,
        dice: None,
        entities: None,
        forward_date: None,
    }
}

fn command_message(id: i64, from: User, text: &str) -> Message {
    let mut m = message(id, Some(from));
    m.text = Some(text.to_string());
    m.entities = Some(vec![MessageEntity {
        offset: 0,
        length: text.split(' ').next().unwrap().len(),
        entity_type: "bot_command".to_string(),
    }]);
    m
}

fn dice_message(id: i64, from: User, value: i64) -> Message {
    let mut m = message(id, Some(from));
    m.dice = Some(Dice {
        emoji: DiceType::Dice,
        value,
    });
    m
}

fn sent(action: &MessageAction) -> &MessageInfo {
    match action {
        MessageAction::Send(info) => info,
        MessageAction::Edit(_) => panic!("expected a new message"),
    }
}

fn two_player_game() -> (GameState, Vec<i64>) {
    let mut game = GameState::new();
    game.handle_command(&message(1, Some(user(1, Some("one")))), "/join", false);
    game.handle_command(&message(2, Some(user(2, None))), "/join", false);
    game.handle_command(&message(3, Some(user(1, Some("one")))), "/play", false);
    let order = match &game {
        GameState::Playing(g) => g.players().iter().map(|p| p.user_id.0).collect(),
        GameState::New(_) => panic!("not started"),
    };
    (game, order)
}

fn handle_of(id: i64) -> Option<&'static str> {
    if id == 1 {
        Some("one")
    } else {
        None
    }
}

#[test]
fn decimal_rendering() {
    assert_eq!(decimal_string(0), "0");
    assert_eq!(decimal_string(7), "7");
    assert_eq!(decimal_string(10), "10");
    assert_eq!(decimal_string(97), "97");
    assert_eq!(decimal_string(100), "100");
    assert_eq!(decimal_string(255), "255");
}

#[test]
fn player_rendering() {
    let with_handle = Player {
        user_id: UserId(1),
        name: "Ann".to_string(),
        username: Some("ann_x".to_string()),
        score: 42,
    };
    let without = Player {
        user_id: UserId(2),
        name: "Bo".to_string(),
        username: None,
        score: 7,
    };
    assert_eq!(with_handle.get_mention_string(), "@ann_x");
    assert_eq!(without.get_mention_string(), "Bo");
    assert_eq!(with_handle.show(false), "Ann (ann_x)");
    assert_eq!(with_handle.show(true), "Ann (ann_x): 42");
    assert_eq!(without.show(true), "Bo: 7");
}

#[test]
fn parameterised_texts() {
    let name = "Ann".to_string();
    assert_eq!(prompt_messages::greeting_hint(&name), "Audience name is Ann.");
    assert_eq!(prompt_messages::game_logic_error_hint(&name), "Audience name is Ann.");
    assert_eq!(prompt_messages::next_turn(&name), "It's Ann turn to roll the dice.");
    assert_eq!(
        prompt_messages::hold(62, &name),
        "Your total score is 62. Next turn: Ann"
    );
    assert_eq!(
        prompt_messages::started(&name),
        "The game has just started. Turn: Ann."
    );
    assert_eq!(
        prompt_messages::reset_confirm_hint(&name),
        "Ann wants to reset the game."
    );
    assert_eq!(
        prompt_messages::joined_hint(&name),
        "The game is a Pig dice game and Ann joined the game."
    );
    assert_eq!(
        prompt_messages::player_left_hint(&name, 30),
        "The game is a Pig dice game and Ann left the game with 30 points. Say your opinion."
    );
    assert!(prompt_messages::turn_lost_hint(&name, 17).contains("after adding 17 by"));
    assert!(prompt_messages::hold_hint(&name, 12, 62)
        .contains("achieved 12 points during the turn and now got 62 points"));
    assert!(prompt_messages::next_turn_hint(&name).ends_with("now it's Ann turn to roll the dice."));
    assert!(prompt_messages::started_hint(&name).contains("Ann is the first player"));
}

#[test]
fn system_message_with_and_without_hint() {
    let plain = prompt_messages::system_message(&None);
    assert!(plain.starts_with("You are a Persian translator."));
    assert!(plain.ends_with("Free to use emojis."));
    let hinted = prompt_messages::system_message(&Some("it is late".to_string()));
    assert_eq!(hinted, format!("{}\n(Extra info: it is late)", plain));
}

#[test]
fn commands_are_read_from_entities() {
    let mut m = message(1, Some(user(1, None)));
    m.text = Some("/join now, then /play@piiigdicegamebot".to_string());
    m.entities = Some(vec![
        MessageEntity {
            offset: 0,
            length: 5,
            entity_type: "bot_command".to_string(),
        },
        MessageEntity {
            offset: 6,
            length: 3,
            entity_type: "bold".to_string(),
        },
        MessageEntity {
            offset: 16,
            length: 22,
            entity_type: "bot_command".to_string(),
        },
        MessageEntity {
            offset: 30,
            length: 100,
            entity_type: "bot_command".to_string(),
        },
    ]);
    assert_eq!(m.get_commands(), vec!["/join", "/play@piiigdicegamebot"]);
    let bare = message(2, None);
    assert!(bare.get_commands().is_empty());
}

#[test]
fn command_entity_inside_a_character_is_skipped() {
    let mut m = message(1, Some(user(1, None)));
    m.text = Some("\u{e9}/hold".to_string());
    m.entities = Some(vec![
        MessageEntity {
            offset: 1,
            length: 5,
            entity_type: "bot_command".to_string(),
        },
        MessageEntity {
            offset: 2,
            length: 5,
            entity_type: "bot_command".to_string(),
        },
    ]);
    assert_eq!(m.get_commands(), vec!["/hold"]);
}

#[test]
fn join_replies_to_the_message() {
    let mut game = GameState::new();
    let actions = game.handle_command(&message(10, Some(user(1, None))), "/join@piiigdicegamebot", true);
    assert_eq!(actions.len(), 1);
    let info = sent(&actions[0]);
    assert_eq!(info.text, prompt_messages::joined());
    assert_eq!(info.reply_to_message_id, Some(MessageId(10)));
    assert_eq!(
        info.hint.as_deref(),
        Some("The game is a Pig dice game and Name1 joined the game.")
    );
    assert!(info.is_premium);
    assert!(info.reply_markup.is_none());
}

#[test]
fn each_refusal_has_its_reply() {
    let mut game = GameState::new();
    let a = game.handle_command(&message(1, Some(user(1, None))), "/play", false);
    assert_eq!(sent(&a[0]).text, prompt_messages::not_enough_player());
    assert_eq!(sent(&a[0]).hint.as_deref(), Some("Audience name is Name1."));
    let a = game.handle_command(&message(2, Some(user(1, None))), "/hold", false);
    assert_eq!(sent(&a[0]).text, prompt_messages::game_is_not_started());
    game.handle_command(&message(3, Some(user(1, None))), "/join", false);
    let a = game.handle_command(&message(4, Some(user(1, None))), "/join", false);
    assert_eq!(sent(&a[0]).text, prompt_messages::already_joined());
    assert_eq!(sent(&a[0]).reply_to_message_id, Some(MessageId(4)));
    game.handle_command(&message(5, Some(user(2, None))), "/join", false);
    game.handle_command(&message(6, Some(user(2, None))), "/play", false);
    let a = game.handle_command(&message(7, Some(user(2, None))), "/play", false);
    assert_eq!(sent(&a[0]).text, prompt_messages::game_already_started());
    let a = game.handle_command(&message(8, Some(user(3, None))), "/join", false);
    assert_eq!(sent(&a[0]).text, prompt_messages::join_after_play());
    let current = match &game {
        GameState::Playing(g) => g.players()[g.turn()].user_id.0,
        GameState::New(_) => panic!("not started"),
    };
    let other = 3 - current;
    let a = game.handle_command(&message(9, Some(user(other, None))), "/hold", false);
    assert_eq!(sent(&a[0]).text, prompt_messages::not_your_turn());
}

#[test]
fn start_announces_the_first_player() {
    let mut game = GameState::new();
    game.handle_command(&message(1, Some(user(1, Some("one")))), "/join", false);
    game.handle_command(&message(2, Some(user(2, None))), "/join", false);
    let a = game.handle_command(&message(3, Some(user(2, None))), "/play", false);
    assert_eq!(a.len(), 1);
    let info = sent(&a[0]);
    let first = match &game {
        GameState::Playing(g) => g.players()[0].user_id.0,
        GameState::New(_) => panic!("not started"),
    };
    let expected = if first == 1 {
        "The game has just started. Turn: @one."
    } else {
        "The game has just started. Turn: Name2."
    };
    assert_eq!(info.text, expected);
    assert_eq!(info.reply_to_message_id, Some(MessageId(3)));
}

#[test]
fn lost_turn_yields_two_messages() {
    let (mut game, order) = two_player_game();
    let roller = user(order[0], handle_of(order[0]));
    game.handle_dice(&dice_message(20, roller, 5), 5);
    let roller = user(order[0], handle_of(order[0]));
    let a = game.handle_dice(&dice_message(21, roller, 1), 1);
    assert_eq!(a.len(), 2);
    assert_eq!(sent(&a[0]).text, prompt_messages::turn_lost());
    assert_eq!(sent(&a[0]).reply_to_message_id, Some(MessageId(21)));
    assert!(sent(&a[0]).hint.as_ref().unwrap().contains("after adding 5 by"));
    let next = if order[1] == 1 { "@one".to_string() } else { format!("Name{}", order[1]) };
    assert_eq!(sent(&a[1]).text, format!("It's {} turn to roll the dice.", next));
    assert_eq!(sent(&a[1]).reply_to_message_id, None);
}

#[test]
fn continued_turn_shows_the_running_total() {
    let (mut game, order) = two_player_game();
    let a = game.handle_dice(&dice_message(30, user(order[0], None), 4), 4);
    assert_eq!(a.len(), 1);
    assert_eq!(sent(&a[0]).text, "0 + 4 = 4");
    assert_eq!(sent(&a[0]).reply_to_message_id, Some(MessageId(30)));
    assert!(sent(&a[0]).hint.is_none());
    let a = game.handle_dice(&dice_message(31, user(order[0], None), 6), 6);
    assert_eq!(sent(&a[0]).text, "0 + 10 = 10");
}

#[test]
fn hold_reply_names_the_next_player() {
    let (mut game, order) = two_player_game();
    game.handle_dice(&dice_message(30, user(order[0], None), 4), 4);
    let a = game.handle_command(&message(31, Some(user(order[0], None))), "/hold", false);
    let next = if order[1] == 1 { "@one".to_string() } else { format!("Name{}", order[1]) };
    assert_eq!(sent(&a[0]).text, format!("Your total score is 4. Next turn: {}", next));
    let a = game.handle_dice(&dice_message(32, user(order[1], None), 3), 3);
    assert_eq!(sent(&a[0]).text, "0 + 3 = 3");
}

#[test]
fn win_lists_the_scores_and_resets() {
    let (mut game, order) = two_player_game();
    for i in 0..16 {
        game.handle_dice(&dice_message(40 + i, user(order[0], None), 6), 6);
    }
    let a = game.handle_dice(&dice_message(60, user(order[0], None), 5), 5);
    assert_eq!(a.len(), 1);
    let info = sent(&a[0]);
    assert!(info.text.starts_with("Scores:\n- "));
    assert!(info.text.contains("\u{1F451} "));
    assert!(info.text.contains(": 101"));
    assert_eq!(info.reply_to_message_id, None);
    match &game {
        GameState::New(g) => assert!(g.players().is_empty()),
        GameState::Playing(_) => panic!("the session must be reset"),
    }
}

#[test]
fn results_listing_in_both_phases() {
    let mut game = GameState::new();
    let a = game.handle_command(&message(1, Some(user(1, None))), "/result", false);
    assert_eq!(sent(&a[0]).text, "No players!");
    game.handle_command(&message(2, Some(user(1, Some("one")))), "/join", false);
    game.handle_command(&message(3, Some(user(2, None))), "/join", false);
    let a = game.handle_command(&message(4, Some(user(2, None))), "/result", false);
    assert_eq!(sent(&a[0]).text, "Players:\n- Name1 (one)\n- Name2");
    assert_eq!(sent(&a[0]).hint.as_deref(), Some(prompt_messages::player_list_hint()));
    game.handle_command(&message(5, Some(user(2, None))), "/play", false);
    let a = game.handle_command(&message(6, Some(user(2, None))), "/result", false);
    let order: Vec<i64> = match &game {
        GameState::Playing(g) => g.players().iter().map(|p| p.user_id.0).collect(),
        GameState::New(_) => panic!("not started"),
    };
    let line = |id: i64| if id == 1 { "Name1 (one): 0".to_string() } else { "Name2: 0".to_string() };
    assert_eq!(
        sent(&a[0]).text,
        format!("Scores:\n- \u{1F3B2} {}\n- {}", line(order[0]), line(order[1]))
    );
}

#[test]
fn reset_asks_for_confirmation_then_resets() {
    let (mut game, _) = two_player_game();
    let a = game.handle_command(&message(50, Some(user(2, None))), "/reset", false);
    let info = sent(&a[0]);
    assert_eq!(info.text, "Are you sure?");
    let keyboard = info.reply_markup.as_ref().unwrap().inline_keyboard.as_ref().unwrap();
    assert_eq!(keyboard.len(), 1);
    assert_eq!(keyboard[0][0].text, "Yes");
    assert_eq!(keyboard[0][0].callback_data.as_deref(), Some("reset"));
    assert!(matches!(game, GameState::Playing(_)));
    let none = game.handle_callback_query(&message(50, None), Some("other".to_string()));
    assert!(none.is_empty());
    assert!(matches!(game, GameState::Playing(_)));
    let a = game.handle_callback_query(&message(50, None), Some("reset".to_string()));
    assert_eq!(a.len(), 1);
    match &a[0] {
        MessageAction::Edit(e) => {
            assert_eq!(e.message_id, MessageId(50));
            assert_eq!(e.message_info.text, prompt_messages::reset());
            let keyboard = e.message_info.reply_markup.as_ref().unwrap().inline_keyboard.as_ref().unwrap();
            assert_eq!(keyboard.len(), 1);
            assert!(keyboard[0].is_empty());
        }
        MessageAction::Send(_) => panic!("expected an edit"),
    }
    match &game {
        GameState::New(g) => assert!(g.players().is_empty()),
        GameState::Playing(_) => panic!("the session must be reset"),
    }
}

#[test]
fn unknown_commands_and_anonymous_messages_are_ignored() {
    let mut game = GameState::new();
    assert!(game.handle_command(&message(1, Some(user(1, None))), "/dance", false).is_empty());
    assert!(game.handle_command(&message(1, None), "/join", false).is_empty());
    assert!(game.handle_dice(&message(1, None), 3).is_empty());
}

#[test]
fn group_message_reads_commands_and_filters_rolls() {
    let mut game = GameState::new();
    let a = game.handle_group_message(&command_message(1, user(1, None), "/join"), false);
    assert_eq!(a.len(), 1);
    game.handle_group_message(&command_message(2, user(2, None), "/join"), false);
    game.handle_group_message(&command_message(3, user(2, None), "/play"), false);
    let first = match &game {
        GameState::Playing(g) => g.players()[0].user_id.0,
        GameState::New(_) => panic!("not started"),
    };
    let mut forwarded = dice_message(4, user(first, None), 4);
    forwarded.forward_date = Some(1_700_000_000);
    assert!(game.handle_group_message(&forwarded, false).is_empty());
    let mut dart = dice_message(5, user(first, None), 4);
    dart.dice = Some(Dice {
        emoji: DiceType::Dart,
        value: 4,
    });
    assert!(game.handle_group_message(&dart, false).is_empty());
    assert!(game.handle_group_message(&dice_message(6, user(first, None), 7), false).is_empty());
    assert!(game.handle_group_message(&dice_message(6, user(first, None), 260), false).is_empty());
    let a = game.handle_group_message(&dice_message(7, user(first, None), 4), false);
    assert_eq!(sent(&a[0]).text, "0 + 4 = 4");
}

#[test]
fn several_commands_in_one_message() {
    let mut game = GameState::new();
    let mut m = command_message(1, user(1, None), "/join /result");
    m.entities.as_mut().unwrap().push(MessageEntity {
        offset: 6,
        length: 7,
        entity_type: "bot_command".to_string(),
    });
    let a = game.handle_group_message(&m, false);
    assert_eq!(a.len(), 2);
    assert_eq!(sent(&a[0]).text, prompt_messages::joined());
    assert_eq!(sent(&a[1]).text, "Players:\n- Name1");
}

#[test]
fn greeting_in_private_chats() {
    let m = message(1, Some(user(1, None)));
    let info = match greeting_message(&m, true) {
        MessageAction::Send(info) => info,
        MessageAction::Edit(_) => panic!("expected a new message"),
    };
    assert_eq!(info.text, prompt_messages::greeting());
    assert_eq!(info.hint.as_deref(), Some("Audience name is Name1."));
    assert!(info.is_premium);
    let info = match greeting_message(&message(2, None), true) {
        MessageAction::Send(info) => info,
        MessageAction::Edit(_) => panic!("expected a new message"),
    };
    assert!(info.hint.is_none());
    assert!(!info.is_premium);
}
