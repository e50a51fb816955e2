use termchat::cards::{make_card, CardStack, CardType};
use termchat::commands::{
    find_command_action, get_command, split_params, ActionRequest, CardasciiAnswer,
    CardasciiAnswerCommand, CardasciiPass, CardasciiPassCommand, CommandError, SendFileCommand,
};
use termchat::directory::PeerDirectory;
use termchat::input::{CursorMovement, InputLine};
use termchat::messages::{Chunk, NetMessage};
use termchat::terminal::{
    draw_card, draw_hand_from_array, draw_hand_from_stack, draw_hand_from_vec_cards, has_picture,
};
use termchat::text::decimal;
use termchat::transfer::{ProgressState, Processing, ReadOutcome, SendFile, CHUNK_SIZE};

#[test]
fn directory_binds_and_forgets_peers() {
    let mut d = PeerDirectory::new();
    d.connect_user(7, &"ana".to_string());
    d.connect_user(9, &"bo".to_string());
    assert_eq!(d.name_of(7), Some("ana".to_string()));
    assert_eq!(d.name_of(9), Some("bo".to_string()));
    assert_eq!(d.name_of(8), None);
    assert_eq!(d.all_endpoints(), vec![7, 9]);
    // A new binding of an endpoint replaces the old one.
    d.connect_user(7, &"cy".to_string());
    assert_eq!(d.name_of(7), Some("cy".to_string()));
    assert_eq!(d.all_endpoints(), vec![9, 7]);
    // A name moves to its newest endpoint.
    d.connect_user(11, &"bo".to_string());
    assert_eq!(d.name_of(9), None);
    assert_eq!(d.all_endpoints(), vec![7, 11]);
    d.disconnect(7);
    d.disconnect(42);
    assert_eq!(d.all_endpoints(), vec![11]);
    assert_eq!(d.name_of(7), None);
}

#[test]
fn file_transfer_of_a_hundred_thousand_bytes() {
    let data = vec![7u8; 100_000];
    let mut t = SendFile::new("photo.png".to_string(), data.len() as u64);
    assert_eq!(t.progress, ProgressState::Started(100_000));
    let mut offset = 0usize;
    let mut sizes = Vec::new();
    let mut last_sent = 0u64;
    loop {
        let end = std::cmp::min(offset + CHUNK_SIZE, data.len());
        let (chunk, processing) = t.process(ReadOutcome::Data(data[offset..end].to_vec()));
        offset = end;
        match chunk {
            Chunk::Data(bytes) => {
                sizes.push(bytes.len());
                assert_eq!(processing, Processing::Partial(100));
                match t.progress {
                    ProgressState::Working(total, sent) => {
                        assert_eq!(total, 100_000);
                        assert!(sent > last_sent);
                        last_sent = sent;
                    }
                    other => panic!("unexpected progress {:?}", other),
                }
            }
            Chunk::End => {
                assert_eq!(processing, Processing::Completed);
                break;
            }
            Chunk::Error => panic!("no read failed"),
        }
    }
    assert_eq!(sizes, vec![32768, 32768, 32768, 1696]);
    assert_eq!(t.sent, 100_000);
    assert_eq!(t.progress, ProgressState::Completed);
}

#[test]
fn a_failed_read_ends_the_transfer() {
    let mut t = SendFile::new("a.txt".to_string(), 10);
    let (chunk, processing) = t.process(ReadOutcome::Data(vec![1, 2, 3]));
    assert_eq!(chunk, Chunk::Data(vec![1, 2, 3]));
    assert_eq!(processing, Processing::Partial(100));
    let (chunk, processing) = t.process(ReadOutcome::Failed("disk gone".to_string()));
    assert_eq!(chunk, Chunk::Error);
    assert_eq!(processing, Processing::Completed);
    assert_eq!(t.progress, ProgressState::Working(10, 3));
}

#[test]
fn paths_with_a_dollar_before_a_non_ascii_letter_are_refused() {
    assert!(matches!(
        SendFileCommand.parse_params(vec!["$é".to_string()]),
        Err(CommandError::PathExpansion(_))
    ));
    assert!(matches!(
        find_command_action(&"/send $é".to_string()),
        Some(Err(CommandError::PathExpansion(_)))
    ));
    assert_eq!(
        SendFileCommand.parse_params(vec!["notes/é.txt".to_string()]),
        Ok(ActionRequest::SendFile("notes/é.txt".to_string()))
    );
}

#[test]
fn words_are_split_at_spaces() {
    assert_eq!(split_params("  send  a b "), vec!["send", "a", "b"]);
    assert_eq!(split_params(""), Vec::<String>::new());
    assert_eq!(split_params("   "), Vec::<String>::new());
    assert_eq!(split_params("x"), vec!["x"]);
}

#[test]
fn commands_are_recognised() {
    assert_eq!(find_command_action(&"hello there".to_string()), None);
    assert_eq!(
        find_command_action(&"/pass".to_string()),
        Some(Ok(ActionRequest::Pass(CardasciiPass {})))
    );
    assert_eq!(
        find_command_action(&"/answer 3 * 8".to_string()),
        Some(Ok(ActionRequest::Answer(CardasciiAnswer { operation: " 3 * 8".to_string() })))
    );
    assert_eq!(
        find_command_action(&"/send".to_string()),
        Some(Err(CommandError::NoFileSpecified))
    );
    assert_eq!(
        find_command_action(&"/send /tmp/notes.txt".to_string()),
        Some(Ok(ActionRequest::SendFile("/tmp/notes.txt".to_string())))
    );
    assert_eq!(
        find_command_action(&"/dance now".to_string()),
        Some(Err(CommandError::UnknownCommand("dance".to_string())))
    );
}

#[test]
fn command_names_and_parameters() {
    assert_eq!(CardasciiAnswerCommand.name(), "answer");
    assert_eq!(CardasciiPassCommand.name(), "pass");
    assert_eq!(SendFileCommand.name(), "send");
    assert_eq!(
        CardasciiAnswerCommand.parse_params(vec!["(1+2)".to_string(), "*8".to_string()]),
        Ok(ActionRequest::Answer(CardasciiAnswer { operation: " (1+2) *8".to_string() }))
    );
    assert_eq!(
        CardasciiPassCommand.parse_params(vec!["x".to_string()]),
        Ok(ActionRequest::Pass(CardasciiPass {}))
    );
    assert_eq!(SendFileCommand.parse_params(vec![]), Err(CommandError::NoFileSpecified));
    assert_eq!(
        CardasciiAnswer::new("1".to_string()),
        Ok(CardasciiAnswer { operation: "1".to_string() })
    );
    assert_eq!(CardasciiPass::new(), Ok(CardasciiPass {}));
    assert_eq!(get_command(&[make_card(CardType::Cup, 1); 4]), None);
}

#[test]
fn answer_and_pass_actions_go_to_every_peer() {
    let mut d = PeerDirectory::new();
    d.connect_user(3, &"ana".to_string());
    d.connect_user(4, &"bo".to_string());
    let (out, processing) = CardasciiAnswer { operation: "4*6".to_string() }.process(&d);
    assert_eq!(out.to, vec![3, 4]);
    assert_eq!(out.message, NetMessage::CardasciiAnswer("4*6".to_string()));
    assert_eq!(processing, Processing::Completed);
    let (out, processing) = CardasciiPass {}.process(&d);
    assert_eq!(out.to, vec![3, 4]);
    assert_eq!(out.message, NetMessage::CardasciiPass);
    assert_eq!(processing, Processing::Completed);
}

#[test]
fn numbers_in_decimal() {
    assert_eq!(decimal(0), "0");
    assert_eq!(decimal(7), "7");
    assert_eq!(decimal(24), "24");
    assert_eq!(decimal(1000), "1000");
    assert_eq!(decimal(u64::MAX), "18446744073709551615");
}

#[test]
fn card_pictures() {
    assert_eq!(draw_card(&vec!["ab", "c"]), "ab\nc\n");
    let hand = [
        make_card(CardType::Sword, 9),
        make_card(CardType::Joker, 0),
        make_card(CardType::Cup, 1),
        make_card(CardType::Gold, 12),
    ];
    let grid = draw_hand_from_array(&hand);
    assert_eq!(grid.len(), 2);
    assert_eq!(grid[0].len(), 2);
    assert_eq!(grid[0][0].lines().count(), 9);
    assert_eq!(grid[0][0].lines().nth(1), Some("│9           │"));
    assert_eq!(grid[0][1].lines().nth(1), Some("│J    ◔   ⊙  │"));
    assert_eq!(grid[1][0].lines().nth(7), Some("│           1│"));
    assert!(grid[1][1].starts_with("┌"));
    assert_eq!(draw_hand_from_vec_cards(&hand.to_vec()), grid);
    let stack = CardStack { is_face_up: true, card_ids: vec![3, 47, 24, 0] };
    let same = [
        make_card(CardType::Sword, 9),
        make_card(CardType::Cup, 1),
        make_card(CardType::Gold, 12),
        make_card(CardType::Sword, 12),
    ];
    assert_eq!(draw_hand_from_stack(&stack), draw_hand_from_array(&same));
}

#[test]
fn only_deck_cards_have_pictures() {
    assert!(has_picture(&make_card(CardType::Joker, 0)));
    assert!(!has_picture(&make_card(CardType::Joker, 3)));
    assert!(has_picture(&make_card(CardType::Club, 12)));
    assert!(!has_picture(&make_card(CardType::Club, 13)));
    assert!(!has_picture(&make_card(CardType::Gold, 0)));
}

#[test]
fn editing_the_input_line() {
    let mut line = InputLine::new();
    assert_eq!(line.reset_input(), None);
    line.input_write('a');
    line.input_write('c');
    line.input_move_cursor(CursorMovement::Left);
    line.input_write('b');
    assert_eq!(line.chars(), &vec!['a', 'b', 'c']);
    assert_eq!(line.cursor(), 2);
    line.input_remove();
    assert_eq!(line.chars(), &vec!['a', 'b']);
    line.input_remove();
    assert_eq!(line.chars(), &vec!['a', 'b']);
    line.input_move_cursor(CursorMovement::Start);
    line.input_remove_previous();
    assert_eq!(line.chars(), &vec!['a', 'b']);
    line.input_move_cursor(CursorMovement::Right);
    line.input_remove_previous();
    assert_eq!(line.chars(), &vec!['b']);
    assert_eq!(line.cursor(), 0);
    line.input_move_cursor(CursorMovement::End);
    assert_eq!(line.cursor(), 1);
    line.input_move_cursor(CursorMovement::Right);
    assert_eq!(line.cursor(), 1);
    assert_eq!(line.reset_input(), Some(vec!['b']));
    assert_eq!(line.chars(), &Vec::<char>::new());
    assert_eq!(line.cursor(), 0);
}
