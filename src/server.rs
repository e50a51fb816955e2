//! The table server: it hosts a game for players that connect to it, and
//! answers each of their requests.
use crate::cards::{Card, CardType};
use crate::directory::EndpointId;
use crate::game::{match_literals, AnswerCheck, Evaluation, Game24, HAND_LEN};
use crate::messages::{FromClientMessage, FromServerMessage, HandCardData, TurnEndType};
use crate::session::{error_text, game_error_text, values_text};
use vstd::prelude::*;

verus! {

/// The number given to the client last connected from `e`, if any.
pub open spec fn client_at(s: Seq<(EndpointId, usize)>, e: EndpointId) -> Option<usize>
    decreases s.len(),
{
    if s.len() == 0 {
        None
    } else if s.last().0 == e {
        Some(s.last().1)
    } else {
        client_at(s.drop_last(), e)
    }
}

/// A game host with its connected clients, numbered in order of arrival.
pub struct TableServer {
    pub clients: Vec<(EndpointId, usize)>,
    pub next_id: usize,
    pub game: Game24,
}

impl TableServer {
    /// The clients and their numbers.
    pub open spec fn clients(&self) -> Seq<(EndpointId, usize)> {
        self.clients@
    }

    /// The number the next client will get.
    pub open spec fn next_id(&self) -> usize {
        self.next_id
    }

    /// A server with a fresh game and no clients.
    pub fn new() -> (r: TableServer)
        ensures
            r.game.wf(),
            r.clients() == Seq::<(EndpointId, usize)>::empty(),
            r.next_id() == 0,
    {
        TableServer { clients: Vec::new(), next_id: 0, game: Game24::new() }
    }

    /// Records a client that connected from `endpoint` under the next number.
    pub fn accepted(&mut self, endpoint: EndpointId)
        requires
            old(self).next_id() < usize::MAX,
        ensures
            final(self).clients() == old(self).clients().push((endpoint, old(self).next_id())),
            final(self).next_id() == old(self).next_id() + 1,
            final(self).game == old(self).game,
    {
        self.clients.push((endpoint, self.next_id));
        self.next_id = self.next_id + 1;
    }

    /// Number of clients connected so far.
    pub fn client_count(&self) -> (r: usize)
        ensures
            r == self.clients().len(),
    {
        self.clients.len()
    }

    /// The number of the client at `endpoint`.
    pub fn client_id(&self, endpoint: EndpointId) -> (r: Option<usize>)
        ensures
            r == client_at(self.clients(), endpoint),
    {
        let mut i: usize = self.clients.len();
        assert(self.clients@.subrange(0, i as int) =~= self.clients@);
        while i > 0
            invariant
                i <= self.clients@.len(),
                client_at(self.clients@, endpoint) == client_at(self.clients@.subrange(0, i as int), endpoint),
            decreases i,
        {
            let ghost sub = self.clients@.subrange(0, i as int);
            assert(sub.drop_last() =~= self.clients@.subrange(0, i - 1));
            if self.clients[i - 1].0 == endpoint {
                return Some(self.clients[i - 1].1);
            }
            i = i - 1;
        }
        None
    }

    /// Answers a client's request. A ping gets the client's number back; a
    /// request for a new turn deals four cards and sends the first four of
    /// the table; an answer, with what the evaluator made of it, ends the
    /// turn for that player when it comes to 24 with the table's cards.
    pub fn handle_message(&mut self, endpoint: EndpointId, message: FromClientMessage, check: Option<AnswerCheck>) -> (r: Option<FromServerMessage>)
        requires
            old(self).game.wf(),
            message is TurnAnswer ==> check is Some,
        ensures
            final(self).game.wf(),
            final(self).clients() == old(self).clients(),
            final(self).next_id() == old(self).next_id(),
            match message {
                FromClientMessage::Ping => final(self).game == old(self).game && r == Some(
                    match client_at(old(self).clients(), endpoint) {
                        Some(id) => FromServerMessage::Pong(id),
                        None => FromServerMessage::UnknownPong,
                    },
                ),
                FromClientMessage::NewTurn => if old(self).game.hidden().len() >= HAND_LEN {
                    &&& final(self).game.hand().len() >= 4
                    &&& r matches Some(FromServerMessage::TurnBegin(h)) && h@ == final(self).game.hand().subrange(0, 4)
                } else {
                    r is None && final(self).game.same_state(&old(self).game)
                },
                FromClientMessage::TurnAnswer(_, _) => final(self).game == old(self).game && match check {
                    Some(c) => if c.evaluation == Evaluation::TwentyFour {
                        match match_literals(old(self).game.hand(), c.literals@) {
                            Ok(rest) => if rest.len() == 0 {
                                r == Some(FromServerMessage::TurnEnd(TurnEndType::YouWin))
                            } else {
                                r matches Some(FromServerMessage::SendMsg(m)) && m@ == "don't use this cards"@
                                    + values_text(rest)
                            },
                            Err(n) => r matches Some(FromServerMessage::SendMsg(m)) && m@ == error_text(
                                crate::game::Game24Err::UnknownNumber(n),
                            ),
                        }
                    } else {
                        r == Some(FromServerMessage::TurnContinue)
                    },
                    None => true,
                },
            },
    {
        match message {
            FromClientMessage::Ping => match self.client_id(endpoint) {
                Some(id) => Some(FromServerMessage::Pong(id)),
                None => Some(FromServerMessage::UnknownPong),
            },
            FromClientMessage::NewTurn => {
                match self.game.do_give_cards() {
                    Ok(()) => {
                        let joker = Card { _type: CardType::Joker, value: 0 };
                        let mut cards: HandCardData = [joker, joker, joker, joker];
                        let mut i: usize = 0;
                        while i < 4
                            invariant
                                i <= 4,
                                self.game.wf(),
                                self.game.hand().len() >= 4,
                                forall|j: int| 0 <= j < i ==> cards@[j] == self.game.hand()[j],
                            decreases 4 - i,
                        {
                            if let Some(card) = self.game.get_gived_card(i) {
                                cards[i] = card;
                            }
                            i = i + 1;
                        }
                        assert(cards@ =~= self.game.hand().subrange(0, 4));
                        Some(FromServerMessage::TurnBegin(cards))
                    },
                    Err(_) => None,
                }
            },
            FromClientMessage::TurnAnswer(_user, _entry) => {
                let c = match check {
                    Some(c) => c,
                    None => {
                        return None;
                    },
                };
                match c.evaluation {
                    Evaluation::TwentyFour => match self.game.check_card_usage(&c.literals) {
                        Ok(()) => Some(FromServerMessage::TurnEnd(TurnEndType::YouWin)),
                        Err(e) => Some(FromServerMessage::SendMsg(game_error_text(&e))),
                    },
                    _ => Some(FromServerMessage::TurnContinue),
                }
            },
        }
    }
}

} // verus!
