use termchat::cards::{make_card, Card, CardStack, CardType, Deck};
use termchat::game::{Evaluation, Game24, Game24Err, TurnResult};

fn name(s: &str) -> String {
    s.to_string()
}

fn total_cards(g: &Game24) -> usize {
    let mut total = g.hidden_len() + g.accumulated_len() + g.turn().visible_cards.card_ids.len();
    for id in 1..=g.player_count() {
        total += g.player_cards_len(id).unwrap();
    }
    total
}

fn hand_values(g: &Game24) -> Vec<usize> {
    g.get_gived_cards().iter().map(|c| c.value as usize).collect()
}

#[test]
fn deck_holds_the_four_suits() {
    let deck = Deck::new();
    assert_eq!(deck.get_card(&0), Some(make_card(CardType::Sword, 12)));
    assert_eq!(deck.get_card(&11), Some(make_card(CardType::Sword, 1)));
    assert_eq!(deck.get_card(&12), Some(make_card(CardType::Club, 12)));
    assert_eq!(deck.get_card(&24), Some(make_card(CardType::Gold, 12)));
    assert_eq!(deck.get_card(&47), Some(make_card(CardType::Cup, 1)));
    assert_eq!(deck.get_card(&48), None);
    let ids = deck.as_ids_no_jokers();
    assert_eq!(ids.len(), 48);
    assert_eq!(ids[0], 0);
    assert_eq!(ids[47], 47);
    let mut seen = Vec::new();
    for id in 0..48u8 {
        let card = deck.get_card(&id).unwrap();
        assert!(card._type != CardType::Joker);
        assert!(card.value >= 1 && card.value <= 12);
        assert!(!seen.contains(&card));
        seen.push(card);
    }
}

#[test]
fn card_positions_and_stack_lookup() {
    let deck = Deck::new();
    let ids = vec![3u8, 60u8, 24u8];
    assert_eq!(deck.get_card_pos(0, &ids), Some(make_card(CardType::Sword, 9)));
    assert_eq!(deck.get_card_pos(1, &ids), None);
    assert_eq!(deck.get_card_pos(3, &ids), None);
    let stack = CardStack { is_face_up: true, card_ids: ids };
    let cards: Vec<Card> = deck.get_cards_from_stack(&stack);
    assert_eq!(cards, vec![make_card(CardType::Sword, 9), make_card(CardType::Gold, 12)]);
}

#[test]
fn moving_cards_between_stacks() {
    let mut a = CardStack::new(false);
    let mut b = CardStack { is_face_up: false, card_ids: vec![1, 2, 3, 4, 5] };
    assert!(a.add_one_from(&mut b));
    assert_eq!(a.card_ids, vec![5]);
    assert!(a.add_n_from(&mut b, 3));
    assert_eq!(a.card_ids, vec![5, 4, 3, 2]);
    assert_eq!(b.card_ids, vec![1]);
    // Too few cards: nothing moves.
    assert!(!a.add_n_from(&mut b, 2));
    assert_eq!(a.card_ids, vec![5, 4, 3, 2]);
    assert_eq!(b.card_ids, vec![1]);
    a.add_all_from(&mut b);
    assert_eq!(a.card_ids, vec![5, 4, 3, 2, 1]);
    assert!(b.is_empty());
    assert!(!a.add_one_from(&mut b));
}

#[test]
fn shuffle_keeps_the_same_ids() {
    let deck = Deck::new();
    let mut s = CardStack::new(false);
    s.add_cards(&deck);
    s.shuffle();
    let mut ids = s.card_ids.clone();
    ids.sort();
    assert_eq!(ids, (0u8..48).collect::<Vec<u8>>());
}

#[test]
fn new_game_hides_every_playing_card() {
    let g = Game24::new();
    assert_eq!(g.hidden_len(), 48);
    assert_eq!(g.accumulated_len(), 0);
    assert_eq!(g.player_count(), 0);
    assert!(g.turn().result == TurnResult::Gaming);
    assert_eq!(g.turn().num(), 0);
}

#[test]
fn deal_moves_four_cards_until_the_deck_runs_out() {
    let mut g = Game24::new();
    for turn in 1..=12u32 {
        assert_eq!(g.do_give_cards(), Ok(()));
        assert_eq!(g.turn().num(), turn);
        assert_eq!(g.hidden_len(), 48 - 4 * turn as usize);
        assert_eq!(total_cards(&g), 48);
    }
    assert_eq!(g.do_give_cards(), Err(Game24Err::DeckExhausted));
    assert_eq!(g.hidden_len(), 0);
    assert_eq!(g.turn().visible_cards.card_ids.len(), 48);
    assert_eq!(g.turn().num(), 12);
}

#[test]
fn registering_a_name_twice_is_refused() {
    let mut g = Game24::new();
    assert_eq!(g.do_user_registration(&name("ana")), Ok(1));
    assert_eq!(g.do_user_registration(&name("bo")), Ok(2));
    assert_eq!(g.do_user_registration(&name("ana")), Err(Game24Err::DuplicateUser));
    assert_eq!(g.player_count(), 2);
    assert_eq!(g.player_cards_len(1), Some(0));
    assert_eq!(g.player_cards_len(2), Some(0));
    assert_eq!(g.player_cards_len(3), None);
}

#[test]
fn every_player_passing_ties_the_turn() {
    let mut g = Game24::new();
    g.do_user_registration(&name("ana")).unwrap();
    g.do_user_registration(&name("bo")).unwrap();
    g.do_give_cards().unwrap();
    assert_eq!(g.do_pass(&name("ana")), Ok(()));
    assert!(g.turn().result == TurnResult::Gaming);
    assert_eq!(g.turn().visible_cards.card_ids.len(), 4);
    assert_eq!(g.do_pass(&name("bo")), Ok(()));
    assert!(g.turn().result == TurnResult::Tie);
    assert_eq!(g.turn().visible_cards.card_ids.len(), 0);
    assert_eq!(g.accumulated_len(), 4);
    assert_eq!(total_cards(&g), 48);
    assert_eq!(g.do_pass(&name("cy")), Err(Game24Err::UnknownUser));
}

#[test]
fn a_winner_takes_the_pot_and_the_table() {
    let mut g = Game24::new();
    g.do_user_registration(&name("ana")).unwrap();
    g.do_user_registration(&name("bo")).unwrap();
    g.do_give_cards().unwrap();
    g.do_pass(&name("ana")).unwrap();
    g.do_pass(&name("bo")).unwrap();
    g.do_give_cards().unwrap();
    let values = hand_values(&g);
    assert_eq!(g.make_answer(&name("bo"), Evaluation::TwentyFour, &values), Ok(()));
    assert!(g.turn().result == TurnResult::Winner(2));
    assert_eq!(g.player_cards_len(2), Some(8));
    assert_eq!(g.accumulated_len(), 0);
    assert_eq!(g.turn().visible_cards.card_ids.len(), 0);
    assert_eq!(total_cards(&g), 48);
}

#[test]
fn answers_are_checked_against_the_hand() {
    let mut g = Game24::new();
    g.do_user_registration(&name("ana")).unwrap();
    g.do_give_cards().unwrap();
    let values = hand_values(&g);
    assert_eq!(values.len(), 4);

    let mut reversed = values.clone();
    reversed.reverse();
    let mut changed = values.clone();
    changed[2] = 13;
    assert_eq!(
        g.make_answer(&name("ana"), Evaluation::TwentyFour, &changed),
        Err(Game24Err::UnknownNumber(13))
    );
    assert_eq!(
        g.make_answer(&name("ana"), Evaluation::NotTwentyFour("23".to_string()), &values),
        Err(Game24Err::WrongResult("23".to_string()))
    );
    assert_eq!(
        g.make_answer(&name("ana"), Evaluation::Invalid("bad token".to_string()), &values),
        Err(Game24Err::InvalidExpression("bad token".to_string()))
    );
    assert_eq!(
        g.make_answer(&name("zed"), Evaluation::TwentyFour, &values),
        Err(Game24Err::UnknownUser)
    );
    let three = values[..3].to_vec();
    match g.make_answer(&name("ana"), Evaluation::TwentyFour, &three) {
        Err(Game24Err::UnusedCards(left)) => {
            assert_eq!(left.len(), 1);
            assert_eq!(left[0].value as usize, values[3]);
        }
        other => panic!("unexpected {:?}", other),
    }
    assert!(g.turn().result == TurnResult::Gaming);
    assert_eq!(g.turn().visible_cards.card_ids.len(), 4);
    assert_eq!(g.make_answer(&name("ana"), Evaluation::TwentyFour, &reversed), Ok(()));
    assert!(g.turn().result == TurnResult::Winner(1));
}

#[test]
fn card_usage_without_the_evaluator() {
    let mut g = Game24::new();
    g.do_user_registration(&name("ana")).unwrap();
    g.do_give_cards().unwrap();
    let values = hand_values(&g);
    let mut doubled = values.clone();
    doubled.push(values[0]);
    assert_eq!(
        g.validate_card_usage_answer(&name("ana"), &doubled),
        Err(Game24Err::UnknownNumber(values[0]))
    );
    assert_eq!(g.validate_card_usage_answer(&name("nobody"), &values), Err(Game24Err::UnknownUser));
    assert_eq!(g.validate_card_usage_answer(&name("ana"), &values), Ok(()));
}

#[test]
fn reset_gathers_the_cards_back() {
    let mut g = Game24::new();
    g.do_user_registration(&name("ana")).unwrap();
    g.do_give_cards().unwrap();
    let values = hand_values(&g);
    g.make_answer(&name("ana"), Evaluation::TwentyFour, &values).unwrap();
    g.do_give_cards().unwrap();
    g.do_reset();
    assert_eq!(g.hidden_len(), 48);
    assert_eq!(g.player_cards_len(1), Some(0));
    assert_eq!(g.turn().visible_cards.card_ids.len(), 0);
    assert_eq!(total_cards(&g), 48);
}

#[test]
fn dealt_cards_read_by_position() {
    let mut g = Game24::new();
    assert_eq!(g.get_gived_card(0), None);
    g.do_give_cards().unwrap();
    let cards = g.get_gived_cards();
    assert_eq!(cards.len(), 4);
    for i in 0..4 {
        assert_eq!(g.get_gived_card(i), Some(cards[i]));
        assert!(cards[i]._type != CardType::Joker);
        assert!(cards[i].value >= 1 && cards[i].value <= 12);
    }
    assert_eq!(g.get_gived_card(4), None);
}

#[test]
fn give_cards_reports_whether_it_dealt() {
    let mut g = Game24::new();
    for _ in 0..12 {
        assert!(g.give_cards());
    }
    assert!(!g.give_cards());
    assert_eq!(g.hidden_len(), 0);
}

#[test]
fn ending_a_turn_by_hand() {
    let mut g = Game24::new();
    g.do_user_registration(&name("ana")).unwrap();
    g.do_give_cards().unwrap();
    g.end_turn(TurnResult::Tie);
    assert!(g.turn().result == TurnResult::Tie);
    assert_eq!(g.accumulated_len(), 4);
    g.do_give_cards().unwrap();
    g.end_turn(TurnResult::Abandoned);
    assert!(g.turn().result == TurnResult::Abandoned);
    assert_eq!(g.turn().visible_cards.card_ids.len(), 4);
    g.end_turn(TurnResult::Winner(1));
    assert_eq!(g.player_cards_len(1), Some(8));
    assert_eq!(g.accumulated_len(), 0);
    assert_eq!(total_cards(&g), 48);
}

#[test]
fn the_table_as_pictures() {
    let mut g = Game24::new();
    g.do_give_cards().unwrap();
    let grid = g.draw_cards_as_string();
    let cards = g.get_gived_cards();
    assert_eq!(grid, termchat::terminal::draw_hand_from_vec_cards(&cards));
    assert_eq!(grid[1][1].lines().count(), 9);
}
