//! The session runtime: the one place where session state changes. Each
//! event from the network or the user goes through a method here, which
//! updates the peer directory, the game and the chat log, and returns the
//! effects for the caller to carry out.
use crate::cards::{top_n, Card};
use crate::commands::{
    command_name, find_command_action, is_command_line, plain_path, spaced, split_words, ActionRequest,
    CardasciiPass, CommandError,
};
use crate::directory::{drop_peer, name_at, Binding, EndpointId, PeerDirectory};
use crate::game::{match_literals, AnswerCheck, Evaluation, Game24, Game24Err, TurnResult, HAND_LEN};
use crate::messages::{Chunk, HandCardData, NetMessage, Outgoing, Pixel};
use crate::text::{concat, decimal, decimal_of, owned};
use crate::transfer::{ProgressState, Processing, ReadOutcome, SendFile, CHUNK_SIZE};
use vstd::prelude::*;

verus! {

/// How serious a system notice is.
#[derive(Debug, Clone, Copy, PartialEq, Eq, Structural)]
pub enum SystemKind {
    Info,
    Warning,
    Error,
}

/// What a chat log entry holds.
#[derive(Debug, Clone, PartialEq, Eq)]
pub enum MessageType {
    Text(String),
    Connection,
    Disconnection,
    System(String, SystemKind),
    Progress(ProgressState),
}

/// An entry of the chat log.
#[derive(Debug, Clone, PartialEq, Eq)]
pub struct ChatMessage {
    pub user: String,
    pub message_type: MessageType,
}

/// Something the caller must do after an event was handled.
#[derive(Debug)]
pub enum Effect {
    /// Encode the message and send it to each endpoint.
    Send(Outgoing),
    /// Ring the terminal bell.
    Bell,
    /// Append bytes to the file of this name received from this user.
    AppendToFile(String, String, Vec<u8>),
    /// Show a video frame (data, width, height) from this endpoint.
    ShowFrame(EndpointId, Vec<Pixel>, usize, usize),
    /// Close the video window of this endpoint.
    CloseStream(EndpointId),
}

/// The text that a game error shows in the chat.
pub open spec fn error_text(e: Game24Err) -> Seq<char> {
    match e {
        Game24Err::DuplicateUser => "the user already exists"@,
        Game24Err::UnknownUser => "User not registered"@,
        Game24Err::DeckExhausted => "we can't do cards"@,
        Game24Err::InvalidExpression(m) => "the operation isn't correct: "@ + m@,
        Game24Err::WrongResult(v) => "the result of your operation isn't 24 result is "@ + v@,
        Game24Err::UnknownNumber(n) => "you are using numbers that don't exist in this cards "@
            + decimal_of(n as nat),
        Game24Err::UnusedCards(cards) => "don't use this cards"@ + values_text(cards@),
    }
}

/// The values of some cards, each after a space.
pub open spec fn values_text(cards: Seq<Card>) -> Seq<char>
    decreases cards.len(),
{
    if cards.len() == 0 {
        Seq::empty()
    } else {
        values_text(cards.drop_last()) + " "@ + decimal_of(cards.last().value as nat)
    }
}

/// The text of a game error.
pub fn game_error_text(e: &Game24Err) -> (r: String)
    ensures
        r@ == error_text(*e),
{
    match e {
        Game24Err::DuplicateUser => owned("the user already exists"),
        Game24Err::UnknownUser => owned("User not registered"),
        Game24Err::DeckExhausted => owned("we can't do cards"),
        Game24Err::InvalidExpression(m) => concat("the operation isn't correct: ", m.as_str()),
        Game24Err::WrongResult(v) => concat("the result of your operation isn't 24 result is ", v.as_str()),
        Game24Err::UnknownNumber(n) => {
            let d = decimal(*n as u64);
            concat("you are using numbers that don't exist in this cards ", d.as_str())
        },
        Game24Err::UnusedCards(cards) => {
            let mut s = owned("don't use this cards");
            let mut i: usize = 0;
            while i < cards.len()
                invariant
                    i <= cards@.len(),
                    s@ == "don't use this cards"@ + values_text(cards@.subrange(0, i as int)),
                decreases cards@.len() - i,
            {
                let d = decimal(cards[i].value as u64);
                let piece = concat(" ", d.as_str());
                s = concat(s.as_str(), piece.as_str());
                proof {
                    let sub = cards@.subrange(0, i as int + 1);
                    assert(sub.drop_last() =~= cards@.subrange(0, i as int));
                }
                i = i + 1;
            }
            assert(cards@.subrange(0, cards@.len() as int) =~= cards@);
            s
        },
    }
}

/// The table's four cards as an array, when exactly four are dealt.
pub fn hand_array(game: &Game24) -> (r: Option<HandCardData>)
    requires
        game.wf(),
    ensures
        r is Some <==> game.hand().len() == 4,
        r matches Some(h) ==> h@ == game.hand(),
{
    let cards = game.get_gived_cards();
    if cards.len() == 4 {
        let h: HandCardData = [cards[0], cards[1], cards[2], cards[3]];
        assert(h@ =~= game.hand());
        Some(h)
    } else {
        None
    }
}

/// What the hosted game `g` finds wrong with `user`'s answer, as the text
/// of the error; `None` when the answer wins.
pub open spec fn answer_problem(g: Game24, user: Seq<char>, check: AnswerCheck) -> Option<Seq<char>> {
    if !g.players().contains_key(user) {
        Some(error_text(Game24Err::UnknownUser))
    } else {
        match check.evaluation {
            Evaluation::Invalid(m) => Some(error_text(Game24Err::InvalidExpression(m))),
            Evaluation::NotTwentyFour(v) => Some(error_text(Game24Err::WrongResult(v))),
            Evaluation::TwentyFour => match match_literals(g.hand(), check.literals@) {
                Err(n) => Some(error_text(Game24Err::UnknownNumber(n))),
                Ok(rest) => if rest.len() > 0 {
                    Some("don't use this cards"@ + values_text(rest))
                } else {
                    None
                },
            },
        }
    }
}

/// Whether the hosted game `g` takes `user`'s answer as the winning one.
pub open spec fn answer_wins(g: Game24, user: Seq<char>, check: AnswerCheck) -> bool {
    answer_problem(g, user, check) is None
}

/// The verdict on an answer that every peer is sent.
pub open spec fn reply_text(g: Game24, user: Seq<char>, check: AnswerCheck, content: Seq<char>) -> Seq<char> {
    match answer_problem(g, user, check) {
        Some(p) => "isn't correct answer!! =_= > "@ + content + " > problem: "@ + p,
        None => if g.hidden().len() >= HAND_LEN {
            "correct answer!! =_= > "@ + content
        } else {
            "correct answer!! =_= > "@ + content + ". "@ + error_text(Game24Err::DeckExhausted)
        },
    }
}

/// The game `h` after `g` judged `user`'s answer: a winner takes the pot
/// and the table, then four new cards are dealt when there are enough; a
/// refused answer changes nothing.
pub open spec fn answer_game(g: Game24, h: Game24, user: Seq<char>, check: AnswerCheck) -> bool {
    if answer_wins(g, user, check) {
        let id = g.id_of(user);
        &&& h.stacks() == g.stacks().update(id - 1, g.stacks()[id - 1] + g.accumulated() + g.visible())
        &&& h.accumulated() == Seq::<u8>::empty()
        &&& h.players() == g.players()
        &&& h.count() == g.count()
        &&& if g.hidden().len() >= HAND_LEN {
            &&& h.visible() == top_n(g.hidden(), HAND_LEN as int)
            &&& h.hidden() == g.hidden().subrange(0, g.hidden().len() - HAND_LEN)
            &&& h.result() == TurnResult::Gaming
        } else {
            &&& h.visible() == Seq::<u8>::empty()
            &&& h.hidden() == g.hidden()
            &&& h.result() == TurnResult::Winner(id)
        }
    } else {
        h.same_state(&g)
    }
}

/// The game `h` after `g` took `user`'s pass: the player leaves the turn,
/// and when nobody is left in it, the turn is a tie and the table goes to
/// the pot. A name that is not registered changes nothing.
pub open spec fn pass_game(g: Game24, h: Game24, user: Seq<char>) -> bool {
    if g.players().contains_key(user) {
        &&& h.active() == g.active().insert(g.id_of(user), false)
        &&& h.players() == g.players()
        &&& h.count() == g.count()
        &&& h.hidden() == g.hidden()
        &&& h.stacks() == g.stacks()
        &&& h.turn_num() == g.turn_num()
        &&& if h.all_passed() {
            &&& h.result() == TurnResult::Tie
            &&& h.visible() == Seq::<u8>::empty()
            &&& h.accumulated() == g.accumulated() + g.visible()
        } else {
            &&& h.result() == g.result()
            &&& h.visible() == g.visible()
            &&& h.accumulated() == g.accumulated()
        }
    } else {
        h.same_state(&g)
    }
}

/// The chat line that says how the turn stands after `user` passed.
pub open spec fn pass_text(g: Game24, h: Game24, user: Seq<char>) -> Seq<char> {
    if !g.players().contains_key(user) {
        error_text(Game24Err::UnknownUser)
    } else {
        match h.result() {
            TurnResult::Tie => "all players passed this turn"@,
            TurnResult::Gaming => "some player passed this turn"@,
            TurnResult::Winner(_) => "have a winner!"@,
            TurnResult::Abandoned => "the turn was abandoned"@,
        }
    }
}

/// How `new` stands after `old` handled a pass from `endpoint`.
pub open spec fn pass_handled(old: Session, new: Session, endpoint: EndpointId) -> bool {
    &&& new.user_name == old.user_name
    &&& new.peers == old.peers
    &&& new.cards == old.cards
    &&& match (name_at(old.peers@, endpoint), old.game) {
        (Some(n), Some(g)) => new.game matches Some(h) && pass_game(g, h, n) && new.messages@.len()
            == old.messages@.len() + 1 && new.messages@.drop_last() == old.messages@ && is_text_entry(
            new.messages@.last(),
            "(me)"@,
            pass_text(g, h, n),
        ),
        _ => new.messages@ == old.messages@ && new.game == old.game,
    }
}

/// The game `h` after `g` registered a peer named `user`: a new name
/// gets the next id; a known name, or a full roster, changes nothing.
pub open spec fn registered(g: Game24, h: Game24, user: Seq<char>) -> bool {
    if g.players().contains_key(user) || g.count() >= usize::MAX {
        h.same_state(&g)
    } else {
        &&& h.players() == g.players().insert(user, (g.count() + 1) as usize)
        &&& h.count() == g.count() + 1
        &&& h.hidden() == g.hidden()
        &&& h.visible() == g.visible()
        &&& h.accumulated() == g.accumulated()
        &&& h.result() == g.result()
        &&& h.turn_num() == g.turn_num()
    }
}

/// How `new`'s game stands after `old` heard from a peer named `user`,
/// which is registered in a hosted game.
pub open spec fn greeted_game(old: Session, new: Session, user: Seq<char>) -> bool {
    match old.game {
        None => new.game is None,
        Some(g) => new.game matches Some(h) && registered(g, h, user),
    }
}

/// Whether `new` logged `input` as this user's chat line and `r` sends it
/// to every peer.
pub open spec fn echoed(old: Session, new: Session, input: String, r: Seq<Effect>) -> bool {
    &&& logged(new.messages@, old.messages@, old.user_name@ + " (me)"@, MessageType::Text(input))
    &&& r.len() == 1
    &&& r[0] matches Effect::Send(o) && o.to@ == every_peer(old.peers@) && o.message == NetMessage::UserMessage(
        input,
    )
}

/// Whether `new` is `old` with one error notice of the given text.
pub open spec fn reported(old: Seq<ChatMessage>, new: Seq<ChatMessage>, text: Seq<char>) -> bool {
    &&& new.len() == old.len() + 1
    &&& new.drop_last() == old
    &&& new.last().user@ == "(me)"@
    &&& new.last().message_type matches MessageType::System(t, SystemKind::Error) && t@ == text
}

/// The endpoints of every peer, in order.
pub open spec fn every_peer(peers: Seq<Binding>) -> Seq<EndpointId> {
    peers.map_values(|p: Binding| p.0)
}

/// Whether `e` sends the hand `cards` to the endpoints `to`.
pub open spec fn sends_hand(e: Effect, to: Seq<EndpointId>, cards: Seq<Card>) -> bool {
    e matches Effect::Send(o) && o.to@ == to && (o.message matches NetMessage::CardasciiNewTurn(h) && h@
        == cards)
}

/// Whether `e` sends the chat line `text` to the endpoints `to`.
pub open spec fn sends_text(e: Effect, to: Seq<EndpointId>, text: Seq<char>) -> bool {
    e matches Effect::Send(o) && o.to@ == to && (o.message matches NetMessage::UserMessage(t) && t@ == text)
}

/// Whether chat entry `m` is the text `text` from `user`.
pub open spec fn is_text_entry(m: ChatMessage, user: Seq<char>, text: Seq<char>) -> bool {
    m.user@ == user && (m.message_type matches MessageType::Text(t) && t@ == text)
}

/// How `new` stands after `old` handled `content`, an answer from
/// `endpoint` that the evaluator judged as `check`, with effects `r`.
pub open spec fn answer_handled(
    old: Session,
    new: Session,
    endpoint: EndpointId,
    content: Seq<char>,
    check: AnswerCheck,
    r: Seq<Effect>,
) -> bool {
    &&& new.user_name == old.user_name
    &&& new.peers == old.peers
    &&& new.cards == old.cards
    &&& match name_at(old.peers@, endpoint) {
        None => new.messages@ == old.messages@ && r.len() == 0 && new.game == old.game,
        Some(n) => {
            let k = old.messages@.len() as int;
            &&& new.messages@.subrange(0, k) == old.messages@
            &&& is_text_entry(new.messages@[k], n, "24Game_answer! > "@ + content)
            &&& r.len() >= 1 && r[0] is Bell
            &&& match old.game {
                None => new.game == old.game && r.len() == 1 && new.messages@.len() == k + 1,
                Some(g) => {
                    &&& new.messages@.len() == k + 2
                    &&& is_text_entry(new.messages@[k + 1], "Me"@, "analizing > "@ + content)
                    &&& new.game matches Some(h) && {
                        &&& answer_game(g, h, n, check)
                        &&& r.len() >= 2
                        &&& sends_text(r[1], every_peer(old.peers@), reply_text(g, n, check, content))
                        &&& h.hand().len() == 4 ==> r.len() == 3 && sends_hand(
                            r[2],
                            every_peer(old.peers@),
                            h.hand(),
                        )
                        &&& h.hand().len() != 4 ==> r.len() == 2
                    }
                },
            }
        },
    }
}

/// The text that a command error shows in the chat.
pub open spec fn command_error_message(e: CommandError) -> Seq<char> {
    match e {
        CommandError::NoFileSpecified => "No file specified"@,
        CommandError::PathExpansion(m) => "Unable to expand the file path: "@ + m@,
        CommandError::UnknownCommand(n) => "This command doesn't exist: "@ + n@,
    }
}

/// The text of a command error.
pub fn command_error_text(e: &CommandError) -> (r: String)
    ensures
        r@ == command_error_message(*e),
{
    match e {
        CommandError::NoFileSpecified => owned("No file specified"),
        CommandError::PathExpansion(m) => concat("Unable to expand the file path: ", m.as_str()),
        CommandError::UnknownCommand(n) => concat("This command doesn't exist: ", n.as_str()),
    }
}

impl Session {
    /// Handles an answer from a peer: it is shown in the chat and, when
    /// this session hosts the game, judged; the verdict and the next hand
    /// go to every peer.
    pub fn process_answer(&mut self, endpoint: EndpointId, content: String, check: AnswerCheck) -> (r: Vec<Effect>)
        requires
            old(self).wf(),
        ensures
            final(self).wf(),
            answer_handled(*old(self), *final(self), endpoint, content@, check, r@),
    {
        let mut effects: Vec<Effect> = Vec::new();
        let user = match self.peers.name_of(endpoint) {
            Some(u) => u,
            None => {
                return effects;
            },
        };
        let ghost n = user@;
        let ghost k = old(self).messages@.len() as int;
        let text = concat("24Game_answer! > ", content.as_str());
        self.messages.push(ChatMessage { user: user.clone(), message_type: MessageType::Text(text) });
        effects.push(Effect::Bell);
        if let Some(mut g) = self.game.take() {
            let ghost g0 = g;
            let note = concat("analizing > ", content.as_str());
            self.messages.push(ChatMessage { user: owned("Me"), message_type: MessageType::Text(note) });
            let ghost chk = check;
            proof {
                if let Ok(rest) = match_literals(g0.hand(), chk.literals@) {
                    if rest.len() == 0 {
                        assert(rest =~= Seq::<Card>::empty());
                    }
                }
            }
            let verdict = g.make_answer(&user, check.evaluation, &check.literals);
            let ghost g1 = g;
            let reply = match verdict {
                Ok(()) => {
                    let base = concat("correct answer!! =_= > ", content.as_str());
                    match g.do_give_cards() {
                        Ok(()) => {
                            proof {
                                assert(Seq::<u8>::empty() + top_n(g1.hidden(), HAND_LEN as int) =~= top_n(
                                    g1.hidden(),
                                    HAND_LEN as int,
                                ));
                            }
                            base
                        },
                        Err(e) => {
                            let a = concat(base.as_str(), ". ");
                            let t = game_error_text(&e);
                            let r = concat(a.as_str(), t.as_str());
                            assert(r@ =~= reply_text(g0, n, chk, content@));
                            r
                        },
                    }
                },
                Err(e) => {
                    let a = concat("isn't correct answer!! =_= > ", content.as_str());
                    let b = concat(a.as_str(), " > problem: ");
                    let t = game_error_text(&e);
                    let r = concat(b.as_str(), t.as_str());
                    assert(r@ =~= reply_text(g0, n, chk, content@));
                    r
                },
            };
            let hand = hand_array(&g);
            self.game = Some(g);
            effects.push(
                Effect::Send(Outgoing { to: self.peers.all_endpoints(), message: NetMessage::UserMessage(reply) }),
            );
            if let Some(h) = hand {
                effects.push(
                    Effect::Send(
                        Outgoing { to: self.peers.all_endpoints(), message: NetMessage::CardasciiNewTurn(h) },
                    ),
                );
            }
            assert(self.messages@.subrange(0, k) =~= old(self).messages@);
        } else {
            assert(self.messages@.subrange(0, k) =~= old(self).messages@);
        }
        effects
    }

    /// Handles a pass from a peer of the hosted game, and notes in the chat
    /// how the turn stands.
    pub fn process_pass(&mut self, endpoint: EndpointId)
        requires
            old(self).wf(),
        ensures
            final(self).wf(),
            pass_handled(*old(self), *final(self), endpoint),
    {
        let user = match self.peers.name_of(endpoint) {
            Some(u) => u,
            None => {
                return ;
            },
        };
        if let Some(mut g) = self.game.take() {
            let ghost g0 = g;
            let text = match g.do_pass(&user) {
                Ok(()) => match g.turn().result {
                    TurnResult::Tie => owned("all players passed this turn"),
                    TurnResult::Gaming => owned("some player passed this turn"),
                    TurnResult::Winner(_) => owned("have a winner!"),
                    TurnResult::Abandoned => owned("the turn was abandoned"),
                },
                Err(e) => game_error_text(&e),
            };
            assert(text@ == pass_text(g0, g, user@));
            self.game = Some(g);
            self.log_in_chat(text);
        }
    }

    /// Handles a peer's disconnection: its binding goes, and so does any
    /// video window it had open.
    pub fn disconnected(&mut self, endpoint: EndpointId) -> (r: Vec<Effect>)
        requires
            old(self).wf(),
        ensures
            final(self).wf(),
            final(self).peers@ == drop_peer(old(self).peers@, endpoint, None),
            final(self).messages@ == old(self).messages@,
            final(self).game == old(self).game,
            r@.len() == 2,
            r@[0] matches Effect::CloseStream(e) && e == endpoint,
            r@[1] is Bell,
    {
        self.peers.disconnect(endpoint);
        let mut effects: Vec<Effect> = Vec::new();
        effects.push(Effect::CloseStream(endpoint));
        effects.push(Effect::Bell);
        effects
    }

    /// Handles a line the user typed. A command line starts its action; a
    /// line that names no known command is reported and goes nowhere.
    /// Every other line, commands included, is logged as this user's chat
    /// text and sent to every peer.
    pub fn process_input(&mut self, input: String) -> (r: (Vec<Effect>, Option<ActionRequest>))
        requires
            old(self).wf(),
        ensures
            final(self).wf(),
            final(self).peers == old(self).peers,
            final(self).game == old(self).game,
            final(self).user_name == old(self).user_name,
            input@.len() == 0 ==> r.0@.len() == 0 && r.1 is None && final(self).messages@ == old(self).messages@,
            input@.len() > 0 && !is_command_line(input@) ==> r.1 is None && echoed(
                *old(self),
                *final(self),
                input,
                r.0@,
            ),
            is_command_line(input@) ==> {
                let words = split_words(input@);
                let name = command_name(words);
                let params = words.drop_first();
                &&& name == "pass"@ ==> echoed(*old(self), *final(self), input, r.0@) && r.1 == Some(
                    ActionRequest::Pass(CardasciiPass {  }),
                )
                &&& name == "answer"@ ==> echoed(*old(self), *final(self), input, r.0@) && (r.1 matches Some(
                    ActionRequest::Answer(a),
                ) && a.operation@ == spaced(params))
                &&& name == "send"@ && params.len() == 0 ==> reported(
                    old(self).messages@,
                    final(self).messages@,
                    "No file specified"@,
                ) && r.0@.len() == 0 && r.1 is None
                &&& name == "send"@ && params.len() > 0 ==> (echoed(*old(self), *final(self), input, r.0@)
                    && (r.1 matches Some(ActionRequest::SendFile(_)))) || (r.0@.len() == 0 && r.1 is None
                    && final(self).messages@.len() == old(self).messages@.len() + 1
                    && final(self).messages@.drop_last() == old(self).messages@
                    && (final(self).messages@.last().message_type matches MessageType::System(
                    _,
                    SystemKind::Error,
                )))
                &&& name == "send"@ && params.len() > 0 && plain_path(params[0]) ==> echoed(
                    *old(self),
                    *final(self),
                    input,
                    r.0@,
                ) && (r.1 matches Some(ActionRequest::SendFile(p)) && p@ == params[0])
                &&& name != "pass"@ && name != "answer"@ && name != "send"@ ==> reported(
                    old(self).messages@,
                    final(self).messages@,
                    "This command doesn't exist: "@ + name,
                ) && r.0@.len() == 0 && r.1 is None
            },
    {
        let mut effects: Vec<Effect> = Vec::new();
        if input.unicode_len() == 0 {
            return (effects, None);
        }
        match find_command_action(&input) {
            Some(Err(e)) => {
                let text = command_error_text(&e);
                self.report(text, SystemKind::Error);
                (effects, None)
            },
            found => {
                let author = concat(self.user_name.as_str(), " (me)");
                self.messages.push(ChatMessage { user: author, message_type: MessageType::Text(input.clone()) });
                assert(self.messages@.drop_last() =~= old(self).messages@);
                effects.push(
                    Effect::Send(Outgoing { to: self.peers.all_endpoints(), message: NetMessage::UserMessage(input) }),
                );
                let action = match found {
                    Some(Ok(a)) => Some(a),
                    _ => None,
                };
                (effects, action)
            },
        }
    }

    /// One step of a file transfer: `read` is what reading the next piece
    /// of the file gave. The progress is shown in the chat log, a failed
    /// read is reported, and the chunk goes to every peer.
    pub fn process_send_step(&mut self, transfer: &mut SendFile, read: ReadOutcome) -> (r: (Vec<Effect>, Processing))
        requires
            old(self).wf(),
            read matches ReadOutcome::Data(bytes) ==> bytes@.len() <= CHUNK_SIZE,
        ensures
            final(self).wf(),
            final(self).peers == old(self).peers,
            final(self).game == old(self).game,
            final(self).user_name == old(self).user_name,
            final(transfer).file_name == old(transfer).file_name,
            final(transfer).file_size == old(transfer).file_size,
            final(transfer).progress_id matches Some(id) && id < final(self).messages@.len()
                && final(self).messages@[id as int].message_type == MessageType::Progress(
                final(transfer).progress,
            ),
            match read {
                ReadOutcome::Data(bytes) => if bytes@.len() > 0 {
                    &&& r.1 == Processing::Partial(crate::transfer::SEND_DELAY_MICROS)
                    &&& final(transfer).progress == ProgressState::Working(
                        old(transfer).file_size,
                        final(transfer).sent,
                    )
                    &&& r.0@.len() == 1 && (r.0@[0] matches Effect::Send(o) && o.message
                        == NetMessage::UserData(old(transfer).file_name, Chunk::Data(bytes)))
                } else {
                    &&& r.1 == Processing::Completed
                    &&& final(transfer).progress == ProgressState::Completed
                    &&& r.0@.len() == 1 && (r.0@[0] matches Effect::Send(o) && o.message
                        == NetMessage::UserData(old(transfer).file_name, Chunk::End))
                },
                ReadOutcome::Failed(e) => {
                    &&& r.1 == Processing::Completed
                    &&& r.0@.len() == 1 && (r.0@[0] matches Effect::Send(o) && o.message
                        == NetMessage::UserData(old(transfer).file_name, Chunk::Error))
                    &&& final(self).messages@.len() <= old(self).messages@.len() + 2
                    &&& final(transfer).progress_id matches Some(id) && id < final(self).messages@.len() - 1
                    &&& final(self).messages@.last().user@ == "(me)"@
                    &&& final(self).messages@.last().message_type matches MessageType::System(t, SystemKind::Error)
                        && t@ == "Error sending file. error: "@ + e@
                },
            },
            read is Data ==> final(self).messages@.len() <= old(self).messages@.len() + 1,
            r.0@[0] matches Effect::Send(o) && o.to@ == old(self).peers@.map_values(|p: Binding| p.0),
    {
        let id: usize = match transfer.progress_id {
            Some(id) => {
                if id < self.messages.len() {
                    id
                } else {
                    self.messages.push(
                        ChatMessage { user: owned("(me)"), message_type: MessageType::Progress(transfer.progress) },
                    );
                    self.messages.len() - 1
                }
            },
            None => {
                self.messages.push(
                    ChatMessage { user: owned("(me)"), message_type: MessageType::Progress(transfer.progress) },
                );
                self.messages.len() - 1
            },
        };
        transfer.progress_id = Some(id);
        let failure = match &read {
            ReadOutcome::Failed(e) => Some(concat("Error sending file. error: ", e.as_str())),
            ReadOutcome::Data(_) => None,
        };
        let (chunk, processing) = transfer.process(read);
        let user = self.messages[id].user.clone();
        self.messages.set(id, ChatMessage { user, message_type: MessageType::Progress(transfer.progress) });
        let ghost before = self.messages@;
        assert(before[id as int].message_type == MessageType::Progress(transfer.progress));
        if let Some(text) = failure {
            self.report(text, SystemKind::Error);
            assert(self.messages@[id as int] == self.messages@.drop_last()[id as int]);
        }
        let mut effects: Vec<Effect> = Vec::new();
        effects.push(
            Effect::Send(
                Outgoing {
                    to: self.peers.all_endpoints(),
                    message: NetMessage::UserData(transfer.file_name.clone(), chunk),
                },
            ),
        );
        (effects, processing)
    }
}

/// The state of one chat session.
pub struct Session {
    pub user_name: String,
    pub peers: PeerDirectory,
    pub game: Option<Game24>,
    pub messages: Vec<ChatMessage>,
    pub cards: Option<HandCardData>,
}

/// `old` with one more chat entry from `user` of the given kind.
pub open spec fn logged(new: Seq<ChatMessage>, old: Seq<ChatMessage>, user: Seq<char>, m: MessageType) -> bool {
    &&& new.len() == old.len() + 1
    &&& new.drop_last() == old
    &&& new.last().user@ == user
    &&& new.last().message_type == m
}

impl Session {
    /// The session's invariant.
    pub open spec fn wf(&self) -> bool {
        &&& self.peers.wf()
        &&& self.game matches Some(g) ==> g.wf()
    }

    /// A session for the named user, hosting a game when `boot` is set.
    pub fn new(user_name: String, boot: bool) -> (r: Session)
        ensures
            r.wf(),
            r.user_name == user_name,
            r.peers@ == Seq::<Binding>::empty(),
            r.game is Some <==> boot,
            r.messages@ == Seq::<ChatMessage>::empty(),
            r.cards is None,
    {
        let game = if boot {
            Some(Game24::new())
        } else {
            None
        };
        Session { user_name, peers: PeerDirectory::new(), game, messages: Vec::new(), cards: None }
    }

    /// Deals a hand in a hosted game; with too few cards left nothing changes.
    pub fn try_new_turn_game24(&mut self)
        requires
            old(self).wf(),
        ensures
            final(self).wf(),
            final(self).peers == old(self).peers,
            final(self).messages == old(self).messages,
            final(self).user_name == old(self).user_name,
            final(self).cards == old(self).cards,
            final(self).game is Some <==> old(self).game is Some,
            old(self).game matches Some(g) ==> (final(self).game matches Some(h) && (if g.hidden().len()
                >= HAND_LEN {
                h.visible() == g.visible() + top_n(g.hidden(), HAND_LEN as int) && h.result()
                    == TurnResult::Gaming
            } else {
                h.same_state(&g)
            })),
    {
        if let Some(mut g) = self.game.take() {
            let _ = g.do_give_cards();
            self.game = Some(g);
        }
    }

    /// Adds a line from this user to the chat log.
    pub fn log_in_chat(&mut self, msg: String)
        ensures
            logged(final(self).messages@, old(self).messages@, "(me)"@, MessageType::Text(msg)),
            final(self).peers == old(self).peers,
            final(self).game == old(self).game,
            final(self).user_name == old(self).user_name,
            final(self).cards == old(self).cards,
    {
        self.messages.push(ChatMessage { user: owned("(me)"), message_type: MessageType::Text(msg) });
        assert(self.messages@.drop_last() =~= old(self).messages@);
    }

    /// Registers a peer's name in the hosted game, if there is one; a name
    /// already registered stays as it is.
    fn register_player(&mut self, user: &String)
        requires
            old(self).wf(),
        ensures
            final(self).wf(),
            final(self).peers == old(self).peers,
            final(self).messages == old(self).messages,
            final(self).user_name == old(self).user_name,
            final(self).cards == old(self).cards,
            old(self).game is None ==> final(self).game is None,
            old(self).game matches Some(g) ==> (final(self).game matches Some(h) && registered(g, h, user@)),
    {
        if let Some(mut g) = self.game.take() {
            if g.player_count() < usize::MAX {
                let _ = g.do_user_registration(user);
            }
            self.game = Some(g);
        }
    }

    /// Handles a message from a peer. An answer comes with what the
    /// evaluator made of its expression.
    pub fn process_network_message(
        &mut self,
        endpoint: EndpointId,
        message: NetMessage,
        check: Option<AnswerCheck>,
    ) -> (r: Vec<Effect>)
        requires
            old(self).wf(),
            message is CardasciiAnswer ==> check is Some,
        ensures
            final(self).wf(),
            final(self).user_name == old(self).user_name,
            final(self).game is Some <==> old(self).game is Some,
            match message {
                NetMessage::HelloLan(user, _) => if user@ != old(self).user_name@ {
                    &&& final(self).peers@ == drop_peer(old(self).peers@, endpoint, Some(user@)).push(
                        (endpoint, user@),
                    )
                    &&& final(self).messages@ == old(self).messages@
                    &&& final(self).cards == old(self).cards
                    &&& greeted_game(*old(self), *final(self), user@)
                    &&& r@.len() >= 1
                    &&& r@[0] matches Effect::Send(o) && o.to@ == seq![endpoint] && o.message
                        == NetMessage::HelloUser(old(self).user_name)
                    &&& match final(self).game {
                        Some(h) => if h.hand().len() == 4 {
                            r@.len() == 2 && sends_hand(r@[1], seq![endpoint], h.hand())
                        } else {
                            r@.len() == 1
                        },
                        None => r@.len() == 1,
                    }
                } else {
                    &&& final(self).peers == old(self).peers
                    &&& final(self).messages == old(self).messages
                    &&& final(self).game == old(self).game
                    &&& final(self).cards == old(self).cards
                    &&& r@.len() == 0
                },
                NetMessage::HelloUser(user) => {
                    &&& final(self).peers@ == drop_peer(old(self).peers@, endpoint, Some(user@)).push(
                        (endpoint, user@),
                    )
                    &&& r@.len() == 1 && r@[0] is Bell
                    &&& final(self).messages@ == old(self).messages@
                    &&& final(self).cards == old(self).cards
                    &&& greeted_game(*old(self), *final(self), user@)
                },
                NetMessage::UserMessage(content) => {
                    &&& final(self).peers@ == old(self).peers@
                    &&& final(self).game == old(self).game
                    &&& final(self).cards == old(self).cards
                    &&& match name_at(old(self).peers@, endpoint) {
                        Some(n) => logged(
                            final(self).messages@,
                            old(self).messages@,
                            n,
                            MessageType::Text(content),
                        ) && r@.len() == 1 && r@[0] is Bell,
                        None => final(self).messages@ == old(self).messages@ && r@.len() == 0,
                    }
                },
                NetMessage::UserData(file_name, chunk) => {
                    &&& final(self).peers@ == old(self).peers@
                    &&& final(self).game == old(self).game
                    &&& final(self).cards == old(self).cards
                    &&& name_at(old(self).peers@, endpoint) is None ==> final(self).messages@ == old(
                        self,
                    ).messages@ && r@.len() == 0
                    &&& name_at(old(self).peers@, endpoint) matches Some(n) ==> match chunk {
                        Chunk::Data(data) => final(self).messages@ == old(self).messages@ && r@.len()
                            == 1 && (r@[0] matches Effect::AppendToFile(u, f, d) && u@ == n && f
                            == file_name && d == data),
                        Chunk::End => final(self).messages@.len() == old(self).messages@.len() + 1
                            && final(self).messages@.drop_last() == old(self).messages@
                            && (final(self).messages@.last().message_type matches MessageType::System(
                            t,
                            SystemKind::Info,
                        ) && t@ == "Successfully received file '"@ + file_name@ + "' from user '"@ + n
                            + "'!"@) && r@.len() == 1 && r@[0] is Bell,
                        Chunk::Error => final(self).messages@.len() == old(self).messages@.len() + 1
                            && final(self).messages@.drop_last() == old(self).messages@
                            && (final(self).messages@.last().message_type matches MessageType::System(
                            t,
                            SystemKind::Error,
                        ) && t@ == "'"@ + n + "' had an error while sending '"@ + file_name@ + "'"@)
                            && r@.len() == 0,
                    }
                },
                NetMessage::Stream(frame) => {
                    &&& final(self).peers@ == old(self).peers@
                    &&& final(self).messages@ == old(self).messages@
                    &&& final(self).game == old(self).game
                    &&& final(self).cards == old(self).cards
                    &&& r@.len() == 1
                    &&& match frame {
                        Some((data, w, h)) => if w * h <= usize::MAX && data@.len() == (w * h) / 2 {
                            r@[0] matches Effect::ShowFrame(e, d, w2, h2) && e == endpoint && d == data
                                && w2 == w && h2 == h
                        } else {
                            r@[0] matches Effect::CloseStream(e) && e == endpoint
                        },
                        None => r@[0] matches Effect::CloseStream(e) && e == endpoint,
                    }
                },
                NetMessage::CardasciiNewTurn(hand) => {
                    &&& final(self).peers@ == old(self).peers@
                    &&& final(self).messages@ == old(self).messages@
                    &&& final(self).game == old(self).game
                    &&& r@.len() == 0
                    &&& old(self).game is None ==> final(self).cards == Some(hand)
                    &&& old(self).game is Some ==> final(self).cards == old(self).cards
                },
                NetMessage::CardasciiAnswer(content) => check matches Some(c) && answer_handled(
                    *old(self),
                    *final(self),
                    endpoint,
                    content@,
                    c,
                    r@,
                ),
                NetMessage::CardasciiPass => r@.len() == 0 && pass_handled(*old(self), *final(self), endpoint),
            },
    {
        let mut effects: Vec<Effect> = Vec::new();
        match message {
            NetMessage::HelloLan(user, _port) => {
                if user != self.user_name {
                    effects.push(
                        Effect::Send(
                            Outgoing {
                                to: vec![endpoint],
                                message: NetMessage::HelloUser(self.user_name.clone()),
                            },
                        ),
                    );
                    self.peers.connect_user(endpoint, &user);
                    self.register_player(&user);
                    if let Some(g) = &self.game {
                        if let Some(hand) = hand_array(g) {
                            effects.push(
                                Effect::Send(
                                    Outgoing {
                                        to: vec![endpoint],
                                        message: NetMessage::CardasciiNewTurn(hand),
                                    },
                                ),
                            );
                        }
                    }
                }
            },
            NetMessage::HelloUser(user) => {
                self.peers.connect_user(endpoint, &user);
                self.register_player(&user);
                effects.push(Effect::Bell);
            },
            NetMessage::UserMessage(content) => {
                if let Some(user) = self.peers.name_of(endpoint) {
                    self.messages.push(ChatMessage { user, message_type: MessageType::Text(content) });
                    assert(self.messages@.drop_last() =~= old(self).messages@);
                    effects.push(Effect::Bell);
                }
            },
            NetMessage::UserData(file_name, chunk) => {
                if let Some(user) = self.peers.name_of(endpoint) {
                    match chunk {
                        Chunk::Error => {
                            let a = concat("'", user.as_str());
                            let b = concat(a.as_str(), "' had an error while sending '");
                            let c = concat(b.as_str(), file_name.as_str());
                            let text = concat(c.as_str(), "'");
                            self.report(text, SystemKind::Error);
                        },
                        Chunk::End => {
                            let a = concat("Successfully received file '", file_name.as_str());
                            let b = concat(a.as_str(), "' from user '");
                            let c = concat(b.as_str(), user.as_str());
                            let text = concat(c.as_str(), "'!");
                            self.report(text, SystemKind::Info);
                            effects.push(Effect::Bell);
                        },
                        Chunk::Data(data) => {
                            effects.push(Effect::AppendToFile(user, file_name, data));
                        },
                    }
                }
            },
            NetMessage::Stream(frame) => {
                match frame {
                    Some((data, width, height)) => {
                        let fits = match width.checked_mul(height) {
                            Some(area) => area / 2 == data.len(),
                            None => false,
                        };
                        if fits {
                            effects.push(Effect::ShowFrame(endpoint, data, width, height));
                        } else {
                            effects.push(Effect::CloseStream(endpoint));
                        }
                    },
                    None => {
                        effects.push(Effect::CloseStream(endpoint));
                    },
                }
            },
            NetMessage::CardasciiNewTurn(hand) => {
                if self.game.is_none() {
                    self.cards = Some(hand);
                }
            },
            NetMessage::CardasciiAnswer(content) => {
                match check {
                    Some(c) => {
                        effects = self.process_answer(endpoint, content, c);
                    },
                    None => {},
                }
            },
            NetMessage::CardasciiPass => {
                self.process_pass(endpoint);
            },
        }
        effects
    }

    /// Adds a system notice to the chat log.
    pub fn report(&mut self, text: String, kind: SystemKind)
        ensures
            logged(final(self).messages@, old(self).messages@, "(me)"@, MessageType::System(text, kind)),
            final(self).peers == old(self).peers,
            final(self).game == old(self).game,
            final(self).user_name == old(self).user_name,
            final(self).cards == old(self).cards,
    {
        self.messages.push(ChatMessage { user: owned("(me)"), message_type: MessageType::System(text, kind) });
        assert(self.messages@.drop_last() =~= old(self).messages@);
    }
}

} // verus!
