//! The turn engine of the 24-game: registered players, the stacks of card
//! ids and the lifecycle of a turn.
use crate::cards::{
    full_deck, playing_ids, reference_card, reference_deck, top_n, Card, CardStack, Deck, DECK_LEN,
};
use std::collections::HashMap;
use vstd::multiset::Multiset;
use vstd::prelude::*;

verus! {

broadcast use vstd::seq_lib::group_seq_properties, vstd::seq_lib::lemma_multiset_commutative,
    vstd::std_specs::hash::group_hash_axioms;

/// The bimap crate's map, carried as an opaque value.
#[verifier::external_type_specification]
#[verifier::external_body]
#[verifier::reject_recursive_types(L)]
#[verifier::reject_recursive_types(R)]
#[verifier::reject_recursive_types(LS)]
#[verifier::reject_recursive_types(RS)]
pub struct ExBiHashMap<L, R, LS, RS>(bimap::BiHashMap<L, R, LS, RS>);

/// Registered player names, paired one to one with player ids.
pub type PlayerMap = bimap::BiMap<String, usize>;

/// The name to id pairs that a bimap of players holds.
pub uninterp spec fn registered_names(m: PlayerMap) -> Map<Seq<char>, usize>;

/// `m` without the pairs whose id is `id`.
pub open spec fn without_id(m: Map<Seq<char>, usize>, id: usize) -> Map<Seq<char>, usize> {
    m.restrict(m.dom().filter(|k: Seq<char>| m[k] != id))
}

/// Relies on bimap's `BiHashMap::new`: the map starts empty.
#[verifier::external_body]
fn players_new() -> (r: PlayerMap)
    ensures
        registered_names(r).dom() == Set::<Seq<char>>::empty(),
{
    bimap::BiMap::new()
}

/// Relies on bimap's `BiHashMap::get_by_left`: the id paired with the name.
#[verifier::external_body]
fn players_get(m: &PlayerMap, name: &String) -> (r: Option<usize>)
    ensures
        r == (if registered_names(*m).contains_key(name@) {
            Some(registered_names(*m)[name@])
        } else {
            None::<usize>
        }),
{
    m.get_by_left(name).copied()
}

/// Relies on bimap's `BiHashMap::insert`: the pairs holding the name or the
/// id are dropped, then the new pair is added.
#[verifier::external_body]
fn players_insert(m: &mut PlayerMap, name: String, id: usize)
    ensures
        registered_names(*final(m)) == without_id(registered_names(*old(m)).remove(name@), id).insert(
            name@,
            id,
        ),
{
    m.insert(name, id);
}

/// How a turn stands.
#[derive(PartialEq, Eq, Structural, Clone, Copy, Debug)]
pub enum TurnResult {
    Winner(usize),
    Tie,
    Gaming,
    Abandoned,
}

/// One round: the cards on the table and the outcome.
pub struct Turn {
    pub num: u32,
    pub visible_cards: CardStack,
    pub result: TurnResult,
}

impl Turn {
    /// The number of deals made so far.
    pub fn num(&self) -> (r: u32)
        ensures
            r == self.num,
    {
        self.num
    }
}

/// Why a game operation was refused.
#[derive(Debug, Clone, PartialEq, Eq)]
pub enum Game24Err {
    /// The name is already registered.
    DuplicateUser,
    /// The name is not registered.
    UnknownUser,
    /// Fewer than four cards are left to deal.
    DeckExhausted,
    /// The evaluator could not read the expression; its reason.
    InvalidExpression(String),
    /// The expression does not come to 24; the value it comes to, as text.
    WrongResult(String),
    /// The expression uses a number that no card left on the table shows.
    UnknownNumber(usize),
    /// The expression leaves these cards of the table unused.
    UnusedCards(Vec<Card>),
}

/// What the arithmetic evaluator made of an answer.
#[derive(Debug, Clone, PartialEq, Eq)]
pub enum Evaluation {
    /// The expression evaluates to exactly 24.
    TwentyFour,
    /// The expression evaluates to another value, given as text.
    NotTwentyFour(String),
    /// The expression could not be read or evaluated; the reason.
    Invalid(String),
}

/// What the evaluator made of an answer's expression: whether it comes to
/// 24, and the numbers it uses, in order.
#[derive(Debug, Clone, PartialEq, Eq)]
pub struct AnswerCheck {
    pub evaluation: Evaluation,
    pub literals: Vec<usize>,
}

/// Number of cards dealt in one turn.
pub const HAND_LEN: u8 = 4;

/// The cards of several stacks, all together.
pub open spec fn stacks_cards(s: Seq<Seq<u8>>) -> Multiset<u8>
    decreases s.len(),
{
    if s.len() == 0 {
        Multiset::empty()
    } else {
        stacks_cards(s.drop_last()).add(s.last().to_multiset())
    }
}

proof fn lemma_stacks_update(s: Seq<Seq<u8>>, i: int, t: Seq<u8>)
    requires
        0 <= i < s.len(),
    ensures
        stacks_cards(s.update(i, t)).add(s[i].to_multiset()) =~= stacks_cards(s).add(
            t.to_multiset(),
        ),
    decreases s.len(),
{
    let u = s.update(i, t);
    let lhs = stacks_cards(u).add(s[i].to_multiset());
    let rhs = stacks_cards(s).add(t.to_multiset());
    if i < s.len() - 1 {
        lemma_stacks_update(s.drop_last(), i, t);
        assert(u.drop_last() =~= s.drop_last().update(i, t));
        assert(u.last() == s.last());
        assert(s.drop_last()[i] == s[i]);
        assert(stacks_cards(u) == stacks_cards(u.drop_last()).add(u.last().to_multiset()));
        assert(stacks_cards(s) == stacks_cards(s.drop_last()).add(s.last().to_multiset()));
        let p = s.drop_last();
        assert forall|v: u8| lhs.count(v) == rhs.count(v) by {
            assert(stacks_cards(p.update(i, t)).add(p[i].to_multiset()).count(v) == stacks_cards(
                p,
            ).add(t.to_multiset()).count(v));
        }
    } else {
        assert(u.drop_last() =~= s.drop_last());
        assert(u.last() == t);
        assert(stacks_cards(u) == stacks_cards(u.drop_last()).add(u.last().to_multiset()));
        assert(stacks_cards(s) == stacks_cards(s.drop_last()).add(s.last().to_multiset()));
        assert forall|v: u8| lhs.count(v) == rhs.count(v) by {}
    }
}

proof fn lemma_empty_multiset()
    ensures
        Seq::<u8>::empty().to_multiset() =~= Multiset::<u8>::empty(),
{
    assert(Seq::<u8>::empty().to_multiset().len() == 0);
}

proof fn lemma_empty_stacks(s: Seq<Seq<u8>>)
    requires
        forall|i: int| 0 <= i < s.len() ==> #[trigger] s[i] == Seq::<u8>::empty(),
    ensures
        stacks_cards(s) =~= Multiset::<u8>::empty(),
    decreases s.len(),
{
    if s.len() > 0 {
        lemma_empty_stacks(s.drop_last());
        lemma_empty_multiset();
        assert(s.last() == Seq::<u8>::empty());
    }
}

proof fn lemma_stacks_push_empty(s: Seq<Seq<u8>>)
    ensures
        stacks_cards(s.push(Seq::empty())) =~= stacks_cards(s),
{
    assert(s.push(Seq::<u8>::empty()).drop_last() =~= s);
}

/// The index of the first card of value `n`, or -1.
pub open spec fn value_pos(cards: Seq<Card>, n: usize) -> int
    decreases cards.len(),
{
    if cards.len() == 0 {
        -1
    } else if cards[0].value as usize == n {
        0
    } else {
        let p = value_pos(cards.drop_first(), n);
        if p < 0 {
            -1
        } else {
            p + 1
        }
    }
}

/// Matches the literals of an answer, in order, against the cards: each
/// takes the first card left of its value. `Err(n)` names the first literal
/// that finds no card; `Ok` holds the cards that no literal took.
pub open spec fn match_literals(cards: Seq<Card>, lits: Seq<usize>) -> Result<Seq<Card>, usize>
    decreases lits.len(),
{
    if lits.len() == 0 {
        Ok(cards)
    } else {
        let p = value_pos(cards, lits[0]);
        if p < 0 {
            Err(lits[0])
        } else {
            match_literals(cards.remove(p), lits.drop_first())
        }
    }
}

proof fn lemma_value_pos(cards: Seq<Card>, n: usize, i: int)
    requires
        0 <= i <= cards.len(),
        forall|j: int| 0 <= j < i ==> cards[j].value as usize != n,
        i < cards.len() ==> cards[i].value as usize == n,
    ensures
        value_pos(cards, n) == (if i < cards.len() {
            i
        } else {
            -1
        }),
    decreases cards.len(),
{
    if cards.len() > 0 && i > 0 {
        lemma_value_pos(cards.drop_first(), n, i - 1);
    }
}

/// The values of some cards, as numbers an expression may use.
pub open spec fn card_values(cards: Seq<Card>) -> Seq<usize> {
    cards.map_values(|c: Card| c.value as usize)
}

/// Sets the flag of every id from 1 to `count` to `value`.
fn set_flags(flags: &mut HashMap<usize, bool>, count: usize, value: bool)
    ensures
        forall|id: usize| #[trigger]
            final(flags)@.contains_key(id) <==> old(flags)@.contains_key(id) || 1 <= id <= count,
        forall|id: usize| 1 <= id <= count ==> #[trigger] final(flags)@[id] == value,
        forall|id: usize| !(1 <= id <= count) ==> #[trigger] final(flags)@[id] == old(flags)@[id],
{
    let mut i: usize = 0;
    while i < count
        invariant
            i <= count,
            forall|j: usize| #[trigger]
                flags@.contains_key(j) <==> old(flags)@.contains_key(j) || 1 <= j <= i,
            forall|j: usize| 1 <= j <= i ==> #[trigger] flags@[j] == value,
            forall|j: usize| !(1 <= j <= i) ==> #[trigger] flags@[j] == old(flags)@[j],
        decreases count - i,
    {
        flags.insert(i + 1, value);
        i = i + 1;
    }
}

/// Whether some id from 1 to `count` has its flag set.
fn any_flag(flags: &HashMap<usize, bool>, count: usize) -> (r: bool)
    requires
        forall|id: usize| 1 <= id <= count ==> #[trigger] flags@.contains_key(id),
    ensures
        r == exists|id: usize| 1 <= id <= count && #[trigger] flags@[id],
{
    let mut i: usize = 0;
    while i < count
        invariant
            i <= count,
            forall|id: usize| 1 <= id <= count ==> #[trigger] flags@.contains_key(id),
            forall|j: usize| 1 <= j <= i ==> !#[trigger] flags@[j],
        decreases count - i,
    {
        let id = i + 1;
        match flags.get(&id) {
            Some(flag) => {
                if *flag {
                    return true;
                }
            },
            None => {},
        }
        i = i + 1;
    }
    false
}

/// The cards that the ids of a stack stand for in the reference deck.
pub open spec fn cards_of(ids: Seq<u8>) -> Seq<Card> {
    ids.map_values(|id: u8| reference_card(id as int))
}

/// Whether some registered name has the id.
pub open spec fn id_taken(players: Map<Seq<char>, usize>, id: usize) -> bool {
    exists|k: Seq<char>| #[trigger] players.contains_key(k) && players[k] == id
}

/// Players are numbered 1 to `count`, one id per name and one name per id,
/// and each id has a flag.
pub open spec fn roster_ok(players: Map<Seq<char>, usize>, count: nat, active: Map<usize, bool>) -> bool {
    &&& forall|k: Seq<char>| #[trigger] players.contains_key(k) ==> 1 <= players[k] <= count
    &&& forall|k1: Seq<char>, k2: Seq<char>|
        players.contains_key(k1) && players.contains_key(k2) && #[trigger] players[k1]
            == #[trigger] players[k2] ==> k1 == k2
    &&& forall|id: usize| 1 <= id <= count ==> #[trigger] id_taken(players, id)
    &&& forall|id: usize| #[trigger] active.contains_key(id) <==> 1 <= id <= count
}

/// The 24-game: a deck, the stacks that share its cards, the registered
/// players and the current turn.
pub struct Game24 {
    player_count: usize,
    players: PlayerMap,
    players_gaming_turn: HashMap<usize, bool>,
    deck: Deck,
    hidden_cards: CardStack,
    players_cards: Vec<CardStack>,
    accumulate_cards: CardStack,
    turn: Turn,
}

impl Game24 {
    /// Registered names and their ids.
    pub closed spec fn players(&self) -> Map<Seq<char>, usize> {
        registered_names(self.players)
    }

    /// Number of registered players; ids run from 1 to this.
    pub closed spec fn count(&self) -> nat {
        self.player_count as nat
    }

    /// For each player id, whether that player is still in the current turn.
    pub closed spec fn active(&self) -> Map<usize, bool> {
        self.players_gaming_turn@
    }

    /// Cards not yet dealt.
    pub closed spec fn hidden(&self) -> Seq<u8> {
        self.hidden_cards@
    }

    /// Cards on the table in the current turn.
    pub closed spec fn visible(&self) -> Seq<u8> {
        self.turn.visible_cards@
    }

    /// Cards of tied turns, waiting for the next winner.
    pub closed spec fn accumulated(&self) -> Seq<u8> {
        self.accumulate_cards@
    }

    /// Each player's won cards; player `id` owns entry `id - 1`.
    pub closed spec fn stacks(&self) -> Seq<Seq<u8>> {
        self.players_cards@.map_values(|c: CardStack| c@)
    }

    /// How the current turn stands.
    pub closed spec fn result(&self) -> TurnResult {
        self.turn.result
    }

    /// Number of deals made.
    pub closed spec fn turn_num(&self) -> u32 {
        self.turn.num
    }

    /// Every card id that the game's stacks hold.
    pub open spec fn cards_in_play(&self) -> Multiset<u8> {
        self.hidden().to_multiset().add(self.visible().to_multiset()).add(
            self.accumulated().to_multiset(),
        ).add(stacks_cards(self.stacks()))
    }

    /// Whether no registered player is still in the current turn.
    pub open spec fn all_passed(&self) -> bool {
        forall|id: usize| 1 <= id <= self.count() ==> !#[trigger] self.active()[id]
    }

    /// The game's invariant: the stacks hold each playing card once, and
    /// the players are numbered 1 to `count()`, each with a stack and a flag.
    pub closed spec fn wf(&self) -> bool {
        &&& self.deck@ == reference_deck()
        &&& self.cards_in_play() == full_deck()
        &&& self.players_cards@.len() == self.player_count
        &&& roster_ok(self.players(), self.player_count as nat, self.active())
    }

    /// A game with no players and every playing card shuffled face down.
    pub fn new() -> (r: Game24)
        ensures
            r.wf(),
            r.players() == Map::<Seq<char>, usize>::empty(),
            r.count() == 0,
            r.hidden().to_multiset() == full_deck(),
            r.visible() == Seq::<u8>::empty(),
            r.accumulated() == Seq::<u8>::empty(),
            r.result() == TurnResult::Gaming,
            r.turn_num() == 0,
    {
        let mut hidden_cards = CardStack::new(false);
        let deck = Deck::new();
        hidden_cards.add_cards(&deck);
        hidden_cards.shuffle();
        let r = Game24 {
            player_count: 0,
            players: players_new(),
            players_gaming_turn: HashMap::new(),
            deck,
            hidden_cards,
            players_cards: Vec::new(),
            accumulate_cards: CardStack::new(false),
            turn: Turn { num: 0, visible_cards: CardStack::new(true), result: TurnResult::Gaming },
        };
        proof {
            assert(r.stacks() =~= Seq::<Seq<u8>>::empty());
            assert(r.cards_in_play() =~= full_deck());
            assert(r.active() =~= Map::<usize, bool>::empty());
        }
        r
    }

    /// The ids on the table are ids of the reference deck.
    pub proof fn lemma_visible_ids(&self)
        requires
            self.wf(),
        ensures
            forall|k: int| 0 <= k < self.visible().len() ==> (#[trigger] self.visible()[k] as int) < DECK_LEN,
    {
        assert forall|k: int| 0 <= k < self.visible().len() implies (#[trigger] self.visible()[k] as int) < DECK_LEN by {
            let x = self.visible()[k];
            assert(self.visible().to_multiset().count(x) > 0);
            assert(self.cards_in_play().count(x) > 0);
            assert(playing_ids().to_multiset().count(x) > 0);
            assert(playing_ids().contains(x));
        }
    }

    /// What the invariant says of the players: one stack each, ids from 1
    /// to `count()`, one name per id and one id per name.
    pub proof fn lemma_roster(&self)
        requires
            self.wf(),
        ensures
            self.stacks().len() == self.count(),
            forall|k: Seq<char>| #[trigger]
                self.players().contains_key(k) ==> 1 <= self.players()[k] <= self.count(),
            forall|k1: Seq<char>, k2: Seq<char>|
                self.players().contains_key(k1) && self.players().contains_key(k2) && #[trigger] self.players()[k1]
                    == #[trigger] self.players()[k2] ==> k1 == k2,
            forall|id: usize| 1 <= id <= self.count() ==> #[trigger] id_taken(self.players(), id),
            forall|id: usize| #[trigger] self.active().contains_key(id) <==> 1 <= id <= self.count(),
    {
    }

    /// The cards on the table, as the deck gives them.
    pub open spec fn hand(&self) -> Seq<Card> {
        cards_of(self.visible())
    }

    /// The id of a registered name.
    pub open spec fn id_of(&self, name: Seq<char>) -> usize {
        self.players()[name]
    }

    /// The game as it stands, but for the players' flags.
    pub open spec fn same_but_flags(&self, other: &Game24) -> bool {
        &&& self.players() == other.players()
        &&& self.count() == other.count()
        &&& self.hidden() == other.hidden()
        &&& self.visible() == other.visible()
        &&& self.accumulated() == other.accumulated()
        &&& self.stacks() == other.stacks()
        &&& self.result() == other.result()
        &&& self.turn_num() == other.turn_num()
    }

    /// The game as it stands, flags included.
    pub open spec fn same_state(&self, other: &Game24) -> bool {
        self.same_but_flags(other) && self.active() == other.active()
    }

    /// Registers a player under the next id, which no player had, and
    /// returns that id.
    pub fn do_user_registration(&mut self, user: &String) -> (r: Result<usize, Game24Err>)
        requires
            old(self).wf(),
            old(self).count() < usize::MAX,
        ensures
            final(self).wf(),
            old(self).players().contains_key(user@) ==> r == Err::<usize, Game24Err>(
                Game24Err::DuplicateUser,
            ) && final(self).same_state(old(self)),
            !old(self).players().contains_key(user@) ==> {
                &&& r == Ok::<usize, Game24Err>((old(self).count() + 1) as usize)
                &&& forall|k: Seq<char>| #[trigger]
                    old(self).players().contains_key(k) ==> old(self).players()[k] != old(self).count() + 1
                &&& final(self).count() == old(self).count() + 1
                &&& final(self).players() == old(self).players().insert(
                    user@,
                    final(self).count() as usize,
                )
                &&& final(self).active() == old(self).active().insert(
                    final(self).count() as usize,
                    false,
                )
                &&& final(self).stacks() == old(self).stacks().push(Seq::empty())
                &&& final(self).hidden() == old(self).hidden()
                &&& final(self).visible() == old(self).visible()
                &&& final(self).accumulated() == old(self).accumulated()
                &&& final(self).result() == old(self).result()
                &&& final(self).turn_num() == old(self).turn_num()
            },
    {
        match players_get(&self.players, user) {
            Some(_) => Err(Game24Err::DuplicateUser),
            None => {
                let ghost old_players = self.players();
                let ghost old_stacks = self.stacks();
                self.player_count = self.player_count + 1;
                let id = self.player_count;
                players_insert(&mut self.players, user.clone(), id);
                self.players_cards.push(CardStack::new(false));
                self.players_gaming_turn.insert(id, false);
                proof {
                    assert(without_id(old_players.remove(user@), id) =~= old_players);
                    assert(self.players() == old_players.insert(user@, id));
                    assert(self.stacks() =~= old_stacks.push(Seq::empty()));
                    lemma_stacks_push_empty(old_stacks);
                    assert forall|j: usize| 1 <= j <= self.player_count implies #[trigger] id_taken(self.players(), j) by {
                        if j < id {
                            assert(id_taken(old_players, j));
                            let k = choose|k: Seq<char>| #[trigger] old_players.contains_key(k) && old_players[k] == j;
                            assert(self.players().contains_key(k) && self.players()[k] == j);
                        } else {
                            assert(self.players().contains_key(user@) && self.players()[user@] == j);
                        }
                    }
                }
                Ok(id)
            },
        }
    }

    /// Closes the turn: a winner takes the pot and the table, a tie puts
    /// the table into the pot.
    pub fn end_turn(&mut self, result: TurnResult)
        requires
            old(self).wf(),
            result matches TurnResult::Winner(id) ==> 1 <= id <= old(self).count(),
        ensures
            final(self).wf(),
            final(self).result() == result,
            final(self).players() == old(self).players(),
            final(self).count() == old(self).count(),
            final(self).active() == old(self).active(),
            final(self).hidden() == old(self).hidden(),
            final(self).turn_num() == old(self).turn_num(),
            match result {
                TurnResult::Winner(id) => {
                    &&& final(self).stacks() == old(self).stacks().update(
                        id - 1,
                        old(self).stacks()[id - 1] + old(self).accumulated() + old(self).visible(),
                    )
                    &&& final(self).accumulated() == Seq::<u8>::empty()
                    &&& final(self).visible() == Seq::<u8>::empty()
                },
                TurnResult::Tie => {
                    &&& final(self).stacks() == old(self).stacks()
                    &&& final(self).accumulated() == old(self).accumulated() + old(self).visible()
                    &&& final(self).visible() == Seq::<u8>::empty()
                },
                _ => {
                    &&& final(self).stacks() == old(self).stacks()
                    &&& final(self).accumulated() == old(self).accumulated()
                    &&& final(self).visible() == old(self).visible()
                },
            },
    {
        let ghost old_stacks = self.stacks();
        let ghost acc = self.accumulated();
        let ghost vis = self.visible();
        match result {
            TurnResult::Winner(user) => {
                let i = user - 1;
                self.players_cards[i].add_all_from(&mut self.accumulate_cards);
                self.players_cards[i].add_all_from(&mut self.turn.visible_cards);
                proof {
                    let t = old_stacks[i as int] + acc + vis;
                    assert(self.stacks() =~= old_stacks.update(i as int, t));
                    lemma_stacks_update(old_stacks, i as int, t);
                    lemma_empty_multiset();
                    assert(self.visible() =~= Seq::<u8>::empty());
                    assert(self.accumulated() =~= Seq::<u8>::empty());
                    let a = stacks_cards(self.stacks()).add(old_stacks[i as int].to_multiset());
                    let b = stacks_cards(old_stacks).add(t.to_multiset());
                    assert forall|v: u8| self.cards_in_play().count(v) == old(self).cards_in_play().count(v) by {
                        assert(a.count(v) == b.count(v));
                    }
                    assert(self.cards_in_play() =~= old(self).cards_in_play());
                }
            },
            TurnResult::Tie => {
                self.accumulate_cards.add_all_from(&mut self.turn.visible_cards);
                proof {
                    assert(self.stacks() =~= old_stacks);
                    lemma_empty_multiset();
                    assert(self.visible() =~= Seq::<u8>::empty());
                    assert(self.cards_in_play() =~= old(self).cards_in_play());
                }
            },
            _ => {
                assert(self.stacks() =~= old_stacks);
            },
        }
        self.turn.result = result;
    }

    /// Deals four cards from the hidden stack onto the table and opens a
    /// turn in which every registered player takes part. With fewer than
    /// four hidden cards nothing changes.
    pub fn do_give_cards(&mut self) -> (r: Result<(), Game24Err>)
        requires
            old(self).wf(),
        ensures
            final(self).wf(),
            r is Ok <==> old(self).hidden().len() >= HAND_LEN,
            r is Err ==> r == Err::<(), Game24Err>(Game24Err::DeckExhausted) && final(self).same_state(old(self)),
            r is Ok ==> {
                &&& final(self).hidden() == old(self).hidden().subrange(
                    0,
                    old(self).hidden().len() - HAND_LEN,
                )
                &&& final(self).visible() == old(self).visible() + top_n(
                    old(self).hidden(),
                    HAND_LEN as int,
                )
                &&& final(self).result() == TurnResult::Gaming
                &&& final(self).turn_num() == (if old(self).turn_num() < u32::MAX {
                    old(self).turn_num() + 1
                } else {
                    0
                })
                &&& forall|id: usize| 1 <= id <= final(self).count() ==> #[trigger] final(self).active()[id]
                &&& final(self).active().dom() == old(self).active().dom()
                &&& final(self).players() == old(self).players()
                &&& final(self).count() == old(self).count()
                &&& final(self).accumulated() == old(self).accumulated()
                &&& final(self).stacks() == old(self).stacks()
            },
    {
        if !self.hidden_cards.is_empty() && self.turn.visible_cards.add_n_from(
            &mut self.hidden_cards,
            HAND_LEN,
        ) {
            self.turn.num = if self.turn.num < u32::MAX {
                self.turn.num + 1
            } else {
                0
            };
            self.turn.result = TurnResult::Gaming;
            set_flags(&mut self.players_gaming_turn, self.player_count, true);
            proof {
                let h = old(self).hidden();
                assert(h =~= h.subrange(0, h.len() - 4) + h.subrange(h.len() - 4, h.len() as int));
                assert(top_n(h, 4).to_multiset() =~= h.subrange(h.len() - 4, h.len() as int).to_multiset()) by {
                    h.subrange(h.len() - 4, h.len() as int).lemma_reverse_to_multiset();
                }
                assert(self.cards_in_play() =~= old(self).cards_in_play());
                assert(self.active().dom() =~= old(self).active().dom());
            }
            Ok(())
        } else {
            Err(Game24Err::DeckExhausted)
        }
    }

    /// Takes a registered player out of the current turn. When no
    /// registered player is left in it, the turn ends in a tie.
    pub fn do_pass(&mut self, user: &String) -> (r: Result<(), Game24Err>)
        requires
            old(self).wf(),
        ensures
            final(self).wf(),
            !old(self).players().contains_key(user@) ==> r == Err::<(), Game24Err>(
                Game24Err::UnknownUser,
            ) && final(self).same_state(old(self)),
            old(self).players().contains_key(user@) ==> {
                &&& r is Ok
                &&& final(self).active() == old(self).active().insert(
                    old(self).id_of(user@),
                    false,
                )
                &&& final(self).players() == old(self).players()
                &&& final(self).count() == old(self).count()
                &&& final(self).hidden() == old(self).hidden()
                &&& final(self).stacks() == old(self).stacks()
                &&& final(self).turn_num() == old(self).turn_num()
                &&& final(self).all_passed() ==> {
                    &&& final(self).result() == TurnResult::Tie
                    &&& final(self).visible() == Seq::<u8>::empty()
                    &&& final(self).accumulated() == old(self).accumulated() + old(self).visible()
                }
                &&& !final(self).all_passed() ==> {
                    &&& final(self).result() == old(self).result()
                    &&& final(self).visible() == old(self).visible()
                    &&& final(self).accumulated() == old(self).accumulated()
                }
            },
    {
        match players_get(&self.players, user) {
            Some(id) => {
                self.players_gaming_turn.insert(id, false);
                proof {
                    assert(self.active().dom() =~= old(self).active().dom());
                }
                if !any_flag(&self.players_gaming_turn, self.player_count) {
                    self.end_turn(TurnResult::Tie);
                }
                Ok(())
            },
            None => Err(Game24Err::UnknownUser),
        }
    }

    /// Gathers the table and every player's cards back into the hidden
    /// stack, shuffles it and takes every player out of the turn. The pot
    /// stays where it is.
    pub fn do_reset(&mut self)
        requires
            old(self).wf(),
        ensures
            final(self).wf(),
            final(self).hidden().to_multiset() == old(self).hidden().to_multiset().add(
                old(self).visible().to_multiset(),
            ).add(stacks_cards(old(self).stacks())),
            final(self).visible() == Seq::<u8>::empty(),
            forall|i: int| 0 <= i < final(self).stacks().len() ==> #[trigger] final(self).stacks()[i]
                == Seq::<u8>::empty(),
            final(self).stacks().len() == old(self).stacks().len(),
            final(self).accumulated() == old(self).accumulated(),
            forall|id: usize| 1 <= id <= final(self).count() ==> !#[trigger] final(self).active()[id],
            final(self).players() == old(self).players(),
            final(self).count() == old(self).count(),
            final(self).result() == old(self).result(),
            final(self).turn_num() == old(self).turn_num(),
    {
        self.hidden_cards.add_all_from(&mut self.turn.visible_cards);
        let ghost h0 = self.hidden();
        let ghost st0 = self.stacks();
        let mut i: usize = 0;
        while i < self.players_cards.len()
            invariant
                i <= self.players_cards@.len(),
                self.players_cards@.len() == st0.len(),
                forall|j: int| i <= j < st0.len() ==> #[trigger] self.stacks()[j] == st0[j],
                forall|j: int| 0 <= j < i ==> #[trigger] self.stacks()[j] == Seq::<u8>::empty(),
                self.hidden().to_multiset().add(stacks_cards(self.stacks())) =~= h0.to_multiset().add(
                    stacks_cards(st0),
                ),
                h0 == old(self).hidden() + old(self).visible(),
                st0 == old(self).stacks(),
                self.visible() == Seq::<u8>::empty(),
                self.active() == old(self).active(),
                self.accumulated() == old(self).accumulated(),
                self.players() == old(self).players(),
                self.player_count == old(self).player_count,
                self.deck@ == old(self).deck@,
                self.turn.result == old(self).turn.result,
                self.turn.num == old(self).turn.num,
            decreases self.players_cards@.len() - i,
        {
            let ghost before = self.stacks();
            let ghost hb = self.hidden();
            self.hidden_cards.add_all_from(&mut self.players_cards[i]);
            proof {
                assert(self.stacks() =~= before.update(i as int, Seq::empty()));
                lemma_stacks_update(before, i as int, Seq::empty());
                lemma_empty_multiset();
                let a = stacks_cards(self.stacks()).add(before[i as int].to_multiset());
                let b = stacks_cards(before).add(Seq::<u8>::empty().to_multiset());
                assert forall|v: u8| self.hidden().to_multiset().add(stacks_cards(self.stacks())).count(v)
                    == hb.to_multiset().add(stacks_cards(before)).count(v) by {
                    assert(a.count(v) == b.count(v));
                }
            }
            i = i + 1;
        }
        proof {
            lemma_empty_stacks(self.stacks());
            assert(self.hidden().to_multiset() =~= old(self).hidden().to_multiset().add(
                old(self).visible().to_multiset(),
            ).add(stacks_cards(old(self).stacks())));
        }
        set_flags(&mut self.players_gaming_turn, self.player_count, false);
        self.hidden_cards.shuffle();
        proof {
            lemma_empty_multiset();
            assert(self.visible() =~= Seq::<u8>::empty());
            assert(self.active().dom() =~= old(self).active().dom());
            assert forall|v: u8| self.cards_in_play().count(v) == old(self).cards_in_play().count(v) by {
                assert(stacks_cards(self.stacks()) =~= Multiset::empty()) by {
                    lemma_empty_stacks(self.stacks());
                }
            }
            assert(self.cards_in_play() =~= old(self).cards_in_play());
        }
    }

    /// Checks the numbers that an answer uses against the cards on the
    /// table: each number takes one card of its value, and every card must
    /// be taken. The game does not change.
    pub fn check_card_usage(&self, literals: &Vec<usize>) -> (r: Result<(), Game24Err>)
        requires
            self.wf(),
        ensures
            match match_literals(self.hand(), literals@) {
                Err(n) => r == Err::<(), Game24Err>(Game24Err::UnknownNumber(n)),
                Ok(rest) => if rest.len() > 0 {
                    r matches Err(Game24Err::UnusedCards(v)) && v@ == rest
                } else {
                    r is Ok
                },
            },
    {
        proof {
            self.lemma_visible_ids();
        }
        let mut cards_vec = self.deck.get_cards_from_stack(&self.turn.visible_cards);
        assert(cards_vec@ =~= self.hand());
        assert(literals@.subrange(0, literals@.len() as int) =~= literals@);
        let mut i: usize = 0;
        while i < literals.len()
            invariant
                i <= literals@.len(),
                match_literals(cards_vec@, literals@.subrange(i as int, literals@.len() as int))
                    == match_literals(self.hand(), literals@),
            decreases literals@.len() - i,
        {
            let n = literals[i];
            let ghost rest = literals@.subrange(i as int, literals@.len() as int);
            assert(rest[0] == n);
            assert(rest.drop_first() =~= literals@.subrange(i + 1, literals@.len() as int));
            let mut pos: usize = 0;
            while pos < cards_vec.len() && cards_vec[pos].value as usize != n
                invariant
                    pos <= cards_vec@.len(),
                    forall|j: int| 0 <= j < pos ==> cards_vec@[j].value as usize != n,
                decreases cards_vec@.len() - pos,
            {
                pos = pos + 1;
            }
            proof {
                lemma_value_pos(cards_vec@, n, pos as int);
            }
            if pos < cards_vec.len() {
                cards_vec.remove(pos);
            } else {
                return Err(Game24Err::UnknownNumber(n));
            }
            i = i + 1;
        }
        assert(literals@.subrange(i as int, literals@.len() as int) =~= Seq::<usize>::empty());
        if cards_vec.len() == 0 {
            Ok(())
        } else {
            Err(Game24Err::UnusedCards(cards_vec))
        }
    }

    /// Checks the numbers of a player's answer against the cards on the
    /// table, as `check_card_usage` does. When all match, the player wins
    /// the turn.
    pub fn validate_card_usage_answer(&mut self, user: &String, literals: &Vec<usize>) -> (r: Result<(), Game24Err>)
        requires
            old(self).wf(),
        ensures
            final(self).wf(),
            match match_literals(old(self).hand(), literals@) {
                Err(n) => r == Err::<(), Game24Err>(Game24Err::UnknownNumber(n)) && final(self).same_state(old(self)),
                Ok(rest) => if rest.len() > 0 {
                    &&& r matches Err(Game24Err::UnusedCards(v)) && v@ == rest
                    &&& final(self).same_state(old(self))
                } else if !old(self).players().contains_key(user@) {
                    r == Err::<(), Game24Err>(Game24Err::UnknownUser) && final(self).same_state(old(self))
                } else {
                    &&& r is Ok
                    &&& final(self).won_by(old(self), old(self).id_of(user@))
                },
            },
    {
        match self.check_card_usage(literals) {
            Ok(()) => match players_get(&self.players, user) {
                Some(id) => {
                    self.end_turn(TurnResult::Winner(id));
                    Ok(())
                },
                None => Err(Game24Err::UnknownUser),
            },
            Err(e) => Err(e),
        }
    }

    /// The game after player `id` won the turn that `old` stood in: the
    /// player took the pot and the table.
    pub open spec fn won_by(&self, old: &Game24, id: usize) -> bool {
        &&& self.result() == TurnResult::Winner(id)
        &&& self.stacks() == old.stacks().update(
            id - 1,
            old.stacks()[id - 1] + old.accumulated() + old.visible(),
        )
        &&& self.accumulated() == Seq::<u8>::empty()
        &&& self.visible() == Seq::<u8>::empty()
        &&& self.hidden() == old.hidden()
        &&& self.players() == old.players()
        &&& self.count() == old.count()
        &&& self.active() == old.active()
        &&& self.turn_num() == old.turn_num()
    }

    /// Judges a player's answer: the player must be registered, the
    /// evaluator must have found the expression to come to 24, and its
    /// numbers must use the cards on the table exactly.
    pub fn make_answer(&mut self, user: &String, evaluation: Evaluation, literals: &Vec<usize>) -> (r: Result<(), Game24Err>)
        requires
            old(self).wf(),
        ensures
            final(self).wf(),
            !old(self).players().contains_key(user@) ==> r == Err::<(), Game24Err>(
                Game24Err::UnknownUser,
            ) && final(self).same_state(old(self)),
            old(self).players().contains_key(user@) ==> match evaluation {
                Evaluation::Invalid(m) => r == Err::<(), Game24Err>(Game24Err::InvalidExpression(m))
                    && final(self).same_state(old(self)),
                Evaluation::NotTwentyFour(v) => r == Err::<(), Game24Err>(Game24Err::WrongResult(v))
                    && final(self).same_state(old(self)),
                Evaluation::TwentyFour => match match_literals(old(self).hand(), literals@) {
                    Err(n) => r == Err::<(), Game24Err>(Game24Err::UnknownNumber(n))
                        && final(self).same_state(old(self)),
                    Ok(rest) => if rest.len() > 0 {
                        &&& r matches Err(Game24Err::UnusedCards(v)) && v@ == rest
                        &&& final(self).same_state(old(self))
                    } else {
                        &&& r is Ok
                        &&& final(self).won_by(old(self), old(self).id_of(user@))
                    },
                },
            },
    {
        match players_get(&self.players, user) {
            None => Err(Game24Err::UnknownUser),
            Some(_) => match evaluation {
                Evaluation::Invalid(m) => Err(Game24Err::InvalidExpression(m)),
                Evaluation::NotTwentyFour(v) => Err(Game24Err::WrongResult(v)),
                Evaluation::TwentyFour => self.validate_card_usage_answer(user, literals),
            },
        }
    }

    /// The cards on the table.
    pub fn get_gived_cards(&self) -> (r: Vec<Card>)
        requires
            self.wf(),
        ensures
            r@ == self.hand(),
    {
        proof {
            self.lemma_visible_ids();
        }
        let r = self.deck.get_cards_from_stack(&self.turn.visible_cards);
        assert(r@ =~= self.hand());
        r
    }

    /// The card at position `i` of the table, if there is one.
    pub fn get_gived_card(&self, i: usize) -> (r: Option<Card>)
        requires
            self.wf(),
        ensures
            r == (if i < self.hand().len() {
                Some(self.hand()[i as int])
            } else {
                None::<Card>
            }),
    {
        proof {
            self.lemma_visible_ids();
        }
        self.deck.get_card_pos(i, &self.turn.visible_cards.card_ids)
    }

    /// Deals four cards, as `do_give_cards` does; true when it could.
    pub fn give_cards(&mut self) -> (r: bool)
        requires
            old(self).wf(),
        ensures
            final(self).wf(),
            r == (old(self).hidden().len() >= HAND_LEN),
            !r ==> final(self).same_state(old(self)),
            r ==> final(self).visible() == old(self).visible() + top_n(old(self).hidden(), HAND_LEN as int),
            r ==> final(self).hidden() == old(self).hidden().subrange(0, old(self).hidden().len() - HAND_LEN),
    {
        self.do_give_cards().is_ok()
    }

    /// Number of cards not yet dealt.
    pub fn hidden_len(&self) -> (r: usize)
        ensures
            r == self.hidden().len(),
    {
        self.hidden_cards.card_ids.len()
    }

    /// Number of cards in the pot of tied turns.
    pub fn accumulated_len(&self) -> (r: usize)
        ensures
            r == self.accumulated().len(),
    {
        self.accumulate_cards.card_ids.len()
    }

    /// Number of cards won by the player with the given id, if there is one.
    pub fn player_cards_len(&self, id: usize) -> (r: Option<usize>)
        requires
            self.wf(),
        ensures
            r == (if 1 <= id <= self.count() {
                Some(self.stacks()[id - 1].len() as usize)
            } else {
                None::<usize>
            }),
    {
        if 1 <= id && id <= self.player_count {
            Some(self.players_cards[id - 1].card_ids.len())
        } else {
            None
        }
    }

    /// Number of registered players.
    pub fn player_count(&self) -> (r: usize)
        ensures
            r == self.count(),
    {
        self.player_count
    }

    /// The current turn.
    pub fn turn(&self) -> (r: &Turn)
        ensures
            r.visible_cards@ == self.visible(),
            r.result == self.result(),
            r.num == self.turn_num(),
    {
        &self.turn
    }
}


proof fn lemma_value_pos_found(cards: Seq<Card>, n: usize, j: int)
    requires
        0 <= j < cards.len(),
        cards[j].value as usize == n,
    ensures
        0 <= value_pos(cards, n) < cards.len(),
        cards[value_pos(cards, n)].value as usize == n,
    decreases cards.len(),
{
    if cards[0].value as usize != n {
        lemma_value_pos_found(cards.drop_first(), n, j - 1);
    }
}

/// Every playing card is in exactly one of the game's stacks, in every
/// well-formed state; every operation that changes the game keeps it
/// well-formed.
pub proof fn lemma_card_conservation(g: &Game24)
    requires
        g.wf(),
    ensures
        g.cards_in_play() == full_deck(),
{
}

/// An answer whose numbers are exactly the values of the cards on the
/// table, in any order, uses every card once.
pub proof fn lemma_exact_literals_match(hand: Seq<Card>, lits: Seq<usize>)
    requires
        lits.to_multiset() == card_values(hand).to_multiset(),
    ensures
        match_literals(hand, lits) == Ok::<Seq<Card>, usize>(Seq::empty()),
    decreases lits.len(),
{
    if lits.len() == 0 {
        assert(card_values(hand).to_multiset().len() == 0);
        assert(hand.len() == 0);
        assert(hand =~= Seq::<Card>::empty());
    } else {
        let n = lits[0];
        assert(lits.to_multiset().count(n) > 0);
        assert(card_values(hand).contains(n));
        let j = choose|j: int| 0 <= j < card_values(hand).len() && card_values(hand)[j] == n;
        lemma_value_pos_found(hand, n, j);
        let p = value_pos(hand, n);
        assert(card_values(hand.remove(p)) =~= card_values(hand).remove(p));
        assert(lits =~= lits.drop_first().insert(0, n));
        assert(card_values(hand).remove(p).to_multiset() == card_values(hand).to_multiset().remove(n));
        assert(lits.drop_first().to_multiset() =~= lits.to_multiset().remove(n)) by {
            assert(lits.remove(0) =~= lits.drop_first());
        }
        lemma_exact_literals_match(hand.remove(p), lits.drop_first());
    }
}

/// An answer that uses a number no card on the table shows is refused
/// with the first number that finds no card.
pub proof fn lemma_foreign_literal_mismatch(hand: Seq<Card>, lits: Seq<usize>, k: int)
    requires
        0 <= k < lits.len(),
        !card_values(hand).contains(lits[k]),
    ensures
        match_literals(hand, lits) is Err,
    decreases lits.len(),
{
    let n = lits[0];
    let p = value_pos(hand, n);
    if p >= 0 {
        if k == 0 {
            lemma_value_pos_in(hand, n);
            assert(card_values(hand)[p] == n);
        } else {
            lemma_value_pos_in(hand, n);
            assert(!card_values(hand.remove(p)).contains(lits[k])) by {
                if card_values(hand.remove(p)).contains(lits[k]) {
                    let q = choose|q: int|
                        0 <= q < card_values(hand.remove(p)).len() && card_values(hand.remove(p))[q]
                            == lits[k];
                    if q < p {
                        assert(card_values(hand)[q] == lits[k]);
                    } else {
                        assert(card_values(hand)[q + 1] == lits[k]);
                    }
                }
            }
            assert(lits.drop_first()[k - 1] == lits[k]);
            lemma_foreign_literal_mismatch(hand.remove(p), lits.drop_first(), k - 1);
        }
    }
}

/// An answer that uses every card on the table once, and nothing else,
/// uses exactly the values of those cards.
pub proof fn lemma_match_means_same_values(hand: Seq<Card>, lits: Seq<usize>)
    requires
        match_literals(hand, lits) == Ok::<Seq<Card>, usize>(Seq::empty()),
    ensures
        lits.to_multiset() == card_values(hand).to_multiset(),
    decreases lits.len(),
{
    if lits.len() == 0 {
        assert(hand =~= Seq::<Card>::empty());
        assert(card_values(hand) =~= Seq::<usize>::empty());
        assert(lits =~= Seq::<usize>::empty());
    } else {
        let n = lits[0];
        let p = value_pos(hand, n);
        lemma_value_pos_in(hand, n);
        lemma_match_means_same_values(hand.remove(p), lits.drop_first());
        assert(card_values(hand.remove(p)) =~= card_values(hand).remove(p));
        assert(card_values(hand)[p] == n);
        assert(lits.remove(0) =~= lits.drop_first());
        assert(lits.drop_first().to_multiset() =~= lits.to_multiset().remove(n));
        assert(card_values(hand).remove(p).to_multiset() =~= card_values(hand).to_multiset().remove(n));
        assert(lits.to_multiset().count(n) > 0);
        assert(card_values(hand).to_multiset().count(n) > 0);
        let a = lits.to_multiset();
        let b = card_values(hand).to_multiset();
        assert forall|v: usize| a.count(v) == b.count(v) by {
            assert(a.remove(n).count(v) == b.remove(n).count(v));
        }
        assert(a =~= b);
    }
}

proof fn lemma_value_pos_in(cards: Seq<Card>, n: usize)
    ensures
        value_pos(cards, n) < cards.len(),
        value_pos(cards, n) >= 0 ==> cards[value_pos(cards, n)].value as usize == n,
        value_pos(cards, n) >= -1,
    decreases cards.len(),
{
    if cards.len() > 0 && cards[0].value as usize != n {
        lemma_value_pos_in(cards.drop_first(), n);
    }
}

} // verus!
