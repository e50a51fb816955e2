use termchat::game::{AnswerCheck, Evaluation};
use termchat::messages::{FromClientMessage, FromServerMessage, TurnEndType};
use termchat::server::TableServer;

#[test]
fn pings_are_answered_with_the_client_number() {
    let mut s = TableServer::new();
    s.accepted(10);
    s.accepted(20);
    assert_eq!(s.client_count(), 2);
    assert_eq!(s.handle_message(20, FromClientMessage::Ping, None), Some(FromServerMessage::Pong(1)));
    assert_eq!(s.handle_message(10, FromClientMessage::Ping, None), Some(FromServerMessage::Pong(0)));
    assert_eq!(s.handle_message(30, FromClientMessage::Ping, None), Some(FromServerMessage::UnknownPong));
}

#[test]
fn new_turns_until_the_deck_is_empty() {
    let mut s = TableServer::new();
    for _ in 0..12 {
        match s.handle_message(1, FromClientMessage::NewTurn, None) {
            Some(FromServerMessage::TurnBegin(hand)) => {
                let table = s.game.get_gived_cards();
                assert_eq!(hand.to_vec(), table[..4].to_vec());
            }
            other => panic!("unexpected {:?}", other),
        }
    }
    assert_eq!(s.handle_message(1, FromClientMessage::NewTurn, None), None);
}

#[test]
fn answers_to_the_table_server() {
    let mut s = TableServer::new();
    s.handle_message(1, FromClientMessage::NewTurn, None);
    let values: Vec<usize> = s.game.get_gived_cards().iter().map(|c| c.value as usize).collect();
    let entry = [' '; 32];
    let win = AnswerCheck { evaluation: Evaluation::TwentyFour, literals: values.clone() };
    assert_eq!(
        s.handle_message(1, FromClientMessage::TurnAnswer(0, entry), Some(win)),
        Some(FromServerMessage::TurnEnd(TurnEndType::YouWin))
    );
    let off = AnswerCheck { evaluation: Evaluation::NotTwentyFour("12".to_string()), literals: values.clone() };
    assert_eq!(
        s.handle_message(1, FromClientMessage::TurnAnswer(0, entry), Some(off)),
        Some(FromServerMessage::TurnContinue)
    );
    let stray = AnswerCheck { evaluation: Evaluation::TwentyFour, literals: vec![99] };
    assert_eq!(
        s.handle_message(1, FromClientMessage::TurnAnswer(0, entry), Some(stray)),
        Some(FromServerMessage::SendMsg("you are using numbers that don't exist in this cards 99".to_string()))
    );
}
