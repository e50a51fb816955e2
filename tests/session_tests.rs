use termchat::commands::ActionRequest;
use termchat::game::{Evaluation, Game24Err, TurnResult};
use termchat::messages::{Chunk, NetMessage, Pixel};
use termchat::game::AnswerCheck;
use termchat::session::{game_error_text, Effect, MessageType, Session, SystemKind};
use termchat::transfer::{ProgressState, Processing, ReadOutcome, SendFile};
use termchat::cards::{make_card, CardType};

fn hosting() -> Session {
    let mut s = Session::new("host".to_string(), true);
    s.try_new_turn_game24();
    s
}

fn last_text(s: &Session) -> String {
    match &s.messages.last().unwrap().message_type {
        MessageType::Text(t) => t.clone(),
        MessageType::System(t, _) => t.clone(),
        other => panic!("unexpected entry {:?}", other),
    }
}

#[test]
fn discovery_greets_back_and_sends_the_hand() {
    let mut s = hosting();
    let effects = s.process_network_message(1, NetMessage::HelloLan("ana".to_string(), 4000), None);
    assert_eq!(s.peers.name_of(1), Some("ana".to_string()));
    assert_eq!(effects.len(), 2);
    match &effects[0] {
        Effect::Send(o) => {
            assert_eq!(o.to, vec![1]);
            assert_eq!(o.message, NetMessage::HelloUser("host".to_string()));
        }
        other => panic!("unexpected {:?}", other),
    }
    match &effects[1] {
        Effect::Send(o) => assert!(matches!(o.message, NetMessage::CardasciiNewTurn(_))),
        other => panic!("unexpected {:?}", other),
    }
    assert_eq!(s.game.as_ref().unwrap().player_count(), 1);
    // Our own discovery message is ignored.
    let effects = s.process_network_message(2, NetMessage::HelloLan("host".to_string(), 4000), None);
    assert!(effects.is_empty());
    assert_eq!(s.peers.name_of(2), None);
}

#[test]
fn chat_from_known_peers_only() {
    let mut s = Session::new("me".to_string(), false);
    let effects = s.process_network_message(5, NetMessage::UserMessage("hi".to_string()), None);
    assert!(effects.is_empty());
    assert!(s.messages.is_empty());
    let effects = s.process_network_message(5, NetMessage::HelloUser("bo".to_string()), None);
    assert!(matches!(effects[..], [Effect::Bell]));
    let effects = s.process_network_message(5, NetMessage::UserMessage("hi".to_string()), None);
    assert!(matches!(effects[..], [Effect::Bell]));
    assert_eq!(s.messages.len(), 1);
    assert_eq!(s.messages[0].user, "bo");
    assert_eq!(s.messages[0].message_type, MessageType::Text("hi".to_string()));
}

#[test]
fn file_chunks_from_a_peer() {
    let mut s = Session::new("me".to_string(), false);
    s.process_network_message(5, NetMessage::HelloUser("bo".to_string()), None);
    let effects = s.process_network_message(
        5,
        NetMessage::UserData("f.txt".to_string(), Chunk::Data(vec![1, 2])),
        None,
    );
    match &effects[..] {
        [Effect::AppendToFile(u, f, d)] => {
            assert_eq!(u, "bo");
            assert_eq!(f, "f.txt");
            assert_eq!(d, &vec![1u8, 2]);
        }
        other => panic!("unexpected {:?}", other),
    }
    let effects = s.process_network_message(5, NetMessage::UserData("f.txt".to_string(), Chunk::End), None);
    assert!(matches!(effects[..], [Effect::Bell]));
    assert_eq!(last_text(&s), "Successfully received file 'f.txt' from user 'bo'!");
    s.process_network_message(5, NetMessage::UserData("g.txt".to_string(), Chunk::Error), None);
    assert_eq!(last_text(&s), "'bo' had an error while sending 'g.txt'");
    assert!(matches!(
        s.messages.last().unwrap().message_type,
        MessageType::System(_, SystemKind::Error)
    ));
}

#[test]
fn video_frames_are_checked_for_size() {
    let mut s = Session::new("me".to_string(), false);
    let px = Pixel { r: 1, g: 2, b: 3 };
    let effects = s.process_network_message(3, NetMessage::Stream(Some((vec![px; 6], 4, 3))), None);
    assert!(matches!(effects[..], [Effect::ShowFrame(3, _, 4, 3)]));
    let effects = s.process_network_message(3, NetMessage::Stream(Some((vec![px; 5], 4, 3))), None);
    assert!(matches!(effects[..], [Effect::CloseStream(3)]));
    let effects = s.process_network_message(3, NetMessage::Stream(None), None);
    assert!(matches!(effects[..], [Effect::CloseStream(3)]));
}

#[test]
fn a_player_without_the_game_keeps_the_dealt_hand() {
    let mut s = Session::new("me".to_string(), false);
    let hand = [make_card(CardType::Cup, 3); 4];
    let effects = s.process_network_message(3, NetMessage::CardasciiNewTurn(hand), None);
    assert!(effects.is_empty());
    assert_eq!(s.cards, Some(hand));
}

#[test]
fn a_right_answer_wins_and_deals_again() {
    let mut s = hosting();
    s.process_network_message(1, NetMessage::HelloUser("ana".to_string()), None);
    let values: Vec<usize> =
        s.game.as_ref().unwrap().get_gived_cards().iter().map(|c| c.value as usize).collect();
    let check = AnswerCheck { evaluation: Evaluation::TwentyFour, literals: values };
    let effects = s.process_network_message(1, NetMessage::CardasciiAnswer("a".to_string()), Some(check));
    assert_eq!(effects.len(), 3);
    match &effects[1] {
        Effect::Send(o) => {
            assert_eq!(o.to, vec![1]);
            assert_eq!(o.message, NetMessage::UserMessage("correct answer!! =_= > a".to_string()));
        }
        other => panic!("unexpected {:?}", other),
    }
    let g = s.game.as_ref().unwrap();
    assert_eq!(g.player_cards_len(1), Some(4));
    assert!(g.turn().result == TurnResult::Gaming);
    assert_eq!(g.turn().num(), 2);
    assert_eq!(s.messages[0].message_type, MessageType::Text("24Game_answer! > a".to_string()));
}

#[test]
fn a_wrong_answer_is_reported_to_everyone() {
    let mut s = hosting();
    s.process_network_message(1, NetMessage::HelloUser("ana".to_string()), None);
    let check = AnswerCheck {
        evaluation: Evaluation::NotTwentyFour("25".to_string()),
        literals: vec![],
    };
    let effects = s.process_answer(1, "x".to_string(), check);
    match &effects[1] {
        Effect::Send(o) => assert_eq!(
            o.message,
            NetMessage::UserMessage(
                "isn't correct answer!! =_= > x > problem: the result of your operation isn't 24 result is 25"
                    .to_string()
            )
        ),
        other => panic!("unexpected {:?}", other),
    }
    assert!(s.game.as_ref().unwrap().turn().result == TurnResult::Gaming);
}

#[test]
fn passes_from_every_peer_tie_the_turn() {
    let mut s = hosting();
    s.process_network_message(1, NetMessage::HelloUser("ana".to_string()), None);
    s.process_network_message(2, NetMessage::HelloUser("bo".to_string()), None);
    s.try_new_turn_game24();
    s.process_network_message(1, NetMessage::CardasciiPass, None);
    assert_eq!(last_text(&s), "some player passed this turn");
    s.process_network_message(2, NetMessage::CardasciiPass, None);
    assert_eq!(last_text(&s), "all players passed this turn");
    assert!(s.game.as_ref().unwrap().turn().result == TurnResult::Tie);
}

#[test]
fn typed_lines_become_chat_or_actions() {
    let mut s = Session::new("me".to_string(), false);
    s.process_network_message(4, NetMessage::HelloUser("bo".to_string()), None);
    let (effects, action) = s.process_input("hello".to_string());
    assert!(action.is_none());
    match &effects[..] {
        [Effect::Send(o)] => {
            assert_eq!(o.to, vec![4]);
            assert_eq!(o.message, NetMessage::UserMessage("hello".to_string()));
        }
        other => panic!("unexpected {:?}", other),
    }
    assert_eq!(s.messages.last().unwrap().user, "me (me)");
    let (_, action) = s.process_input("/pass".to_string());
    assert!(matches!(action, Some(ActionRequest::Pass(_))));
    let (effects, action) = s.process_input("/fly".to_string());
    assert!(effects.is_empty() && action.is_none());
    assert_eq!(last_text(&s), "This command doesn't exist: fly");
    let (effects, action) = s.process_input(String::new());
    assert!(effects.is_empty() && action.is_none());
}

#[test]
fn sending_a_file_shows_progress() {
    let mut s = Session::new("me".to_string(), false);
    s.process_network_message(4, NetMessage::HelloUser("bo".to_string()), None);
    let mut t = SendFile::new("a.bin".to_string(), 5);
    let (effects, processing) = s.process_send_step(&mut t, ReadOutcome::Data(vec![1, 2, 3, 4, 5]));
    assert_eq!(processing, Processing::Partial(100));
    match &effects[..] {
        [Effect::Send(o)] => {
            assert_eq!(o.to, vec![4]);
            assert_eq!(o.message, NetMessage::UserData("a.bin".to_string(), Chunk::Data(vec![1, 2, 3, 4, 5])));
        }
        other => panic!("unexpected {:?}", other),
    }
    let id = t.progress_id.unwrap();
    assert_eq!(s.messages[id].message_type, MessageType::Progress(ProgressState::Working(5, 5)));
    let (_, processing) = s.process_send_step(&mut t, ReadOutcome::Data(vec![]));
    assert_eq!(processing, Processing::Completed);
    assert_eq!(s.messages[id].message_type, MessageType::Progress(ProgressState::Completed));
}

#[test]
fn disconnecting_drops_the_peer() {
    let mut s = Session::new("me".to_string(), false);
    s.process_network_message(4, NetMessage::HelloUser("bo".to_string()), None);
    let effects = s.disconnected(4);
    assert!(matches!(effects[..], [Effect::CloseStream(4), Effect::Bell]));
    assert_eq!(s.peers.name_of(4), None);
}

#[test]
fn game_errors_as_text() {
    assert_eq!(game_error_text(&Game24Err::UnknownNumber(13)), "you are using numbers that don't exist in this cards 13");
    assert_eq!(game_error_text(&Game24Err::DeckExhausted), "we can't do cards");
    assert_eq!(
        game_error_text(&Game24Err::UnusedCards(vec![make_card(CardType::Gold, 7), make_card(CardType::Cup, 11)])),
        "don't use this cards 7 11"
    );
}

#[test]
fn commands_typed_by_the_user() {
    let mut s = Session::new("me".to_string(), false);
    s.process_network_message(4, NetMessage::HelloUser("bo".to_string()), None);
    let (effects, action) = s.process_input("/send".to_string());
    assert!(effects.is_empty() && action.is_none());
    assert_eq!(last_text(&s), "No file specified");
    let (effects, action) = s.process_input("/send /tmp/a.txt".to_string());
    assert_eq!(effects.len(), 1);
    assert_eq!(action, Some(ActionRequest::SendFile("/tmp/a.txt".to_string())));
    assert_eq!(last_text(&s), "/send /tmp/a.txt");
    let (_, action) = s.process_input("/answer 4 * 6".to_string());
    assert!(matches!(action, Some(ActionRequest::Answer(a)) if a.operation == " 4 * 6"));
}

#[test]
fn a_failed_file_read_is_reported() {
    let mut s = Session::new("me".to_string(), false);
    let mut t = SendFile::new("a.bin".to_string(), 5);
    let (_, processing) = s.process_send_step(&mut t, ReadOutcome::Failed("disk gone".to_string()));
    assert_eq!(processing, Processing::Completed);
    assert_eq!(last_text(&s), "Error sending file. error: disk gone");
}

#[test]
fn a_winning_answer_when_the_deck_is_empty() {
    let mut s = hosting();
    s.process_network_message(1, NetMessage::HelloUser("ana".to_string()), None);
    for _ in 0..11 {
        s.try_new_turn_game24();
    }
    assert_eq!(s.game.as_ref().unwrap().hidden_len(), 0);
    let values: Vec<usize> =
        s.game.as_ref().unwrap().get_gived_cards().iter().map(|c| c.value as usize).collect();
    let check = AnswerCheck { evaluation: Evaluation::TwentyFour, literals: values };
    let effects = s.process_answer(1, "a".to_string(), check);
    assert_eq!(effects.len(), 2);
    match &effects[1] {
        Effect::Send(o) => assert_eq!(
            o.message,
            NetMessage::UserMessage("correct answer!! =_= > a. we can't do cards".to_string())
        ),
        other => panic!("unexpected {:?}", other),
    }
    assert!(s.game.as_ref().unwrap().turn().result == TurnResult::Winner(1));
}
