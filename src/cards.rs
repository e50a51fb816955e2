//! Cards, the reference deck and stacks of card ids.
use rand::seq::SliceRandom;
use vstd::multiset::Multiset;
use vstd::prelude::*;

verus! {

broadcast use vstd::seq_lib::group_seq_properties, vstd::seq_lib::lemma_multiset_commutative;

/// The suit of a card.
#[derive(PartialEq, Eq, Structural, Clone, Copy, Debug, Hash, PartialOrd, Ord)]
pub enum CardType {
    Gold,
    Club,
    Sword,
    Cup,
    Joker,
}

/// A card; two cards with the same suit and value are interchangeable.
#[derive(PartialEq, Eq, Structural, Clone, Copy, Debug, Hash, PartialOrd, Ord)]
pub struct Card {
    pub _type: CardType,
    pub value: u8,
}

/// Number of cards in the reference deck.
pub const DECK_LEN: usize = 48;

/// Cards of one suit, valued 12 down to 1.
pub const SUIT_LEN: usize = 12;

/// Builds a card from its suit and value.
pub fn make_card(_type: CardType, value: u8) -> (r: Card)
    ensures
        r == (Card { _type, value }),
{
    Card { _type, value }
}

/// The suit of the `s`-th block of twelve cards.
pub open spec fn suit_at(s: int) -> CardType {
    if s == 0 {
        CardType::Sword
    } else if s == 1 {
        CardType::Club
    } else if s == 2 {
        CardType::Gold
    } else {
        CardType::Cup
    }
}

/// The card with id `i` in the reference deck: Sword, Club, Gold and Cup,
/// each from 12 down to 1.
pub open spec fn reference_card(i: int) -> Card {
    Card { _type: suit_at(i / SUIT_LEN as int), value: (SUIT_LEN - i % SUIT_LEN as int) as u8 }
}

/// The reference deck, indexed by card id.
pub open spec fn reference_deck() -> Seq<Card> {
    Seq::new(DECK_LEN as nat, |i: int| reference_card(i))
}

/// The ids of the cards of the reference deck, in order.
pub open spec fn playing_ids() -> Seq<u8> {
    Seq::new(DECK_LEN as nat, |i: int| i as u8)
}

/// The full set of cards, as a multiset of ids.
pub open spec fn full_deck() -> Multiset<u8> {
    playing_ids().to_multiset()
}

/// Each suit card, from 1 to 12, has its place in the reference deck.
pub proof fn lemma_reference_deck_covers(s: int, v: int)
    requires
        0 <= s < 4,
        1 <= v <= 12,
    ensures
        0 <= 12 * s + 12 - v < DECK_LEN,
        reference_card(12 * s + 12 - v) == (Card { _type: suit_at(s), value: v as u8 }),
{
    lemma_block_index(s, 12 - v);
}

/// No card stands twice in the reference deck.
pub proof fn lemma_reference_deck_distinct(i: int, j: int)
    requires
        0 <= i < j < DECK_LEN,
    ensures
        reference_card(i) != reference_card(j),
{
    vstd::arithmetic::div_mod::lemma_fundamental_div_mod(i, 12);
    vstd::arithmetic::div_mod::lemma_fundamental_div_mod(j, 12);
    vstd::arithmetic::div_mod::lemma_div_pos_is_pos(i, 12);
    vstd::arithmetic::div_mod::lemma_div_pos_is_pos(j, 12);
    vstd::arithmetic::div_mod::lemma_mod_bound(i, 12);
    vstd::arithmetic::div_mod::lemma_mod_bound(j, 12);
    vstd::arithmetic::div_mod::lemma_div_is_ordered(i, j, 12);
    vstd::arithmetic::div_mod::lemma_div_is_ordered(j, 47, 12);
    assert(47int / 12 == 3);
}

/// The reference deck: an arena of cards that stacks refer to by id.
pub struct Deck {
    cards: Vec<Card>,
}

impl View for Deck {
    type V = Seq<Card>;

    closed spec fn view(&self) -> Seq<Card> {
        self.cards@
    }
}

proof fn lemma_block_index(s: int, r: int)
    requires
        0 <= s,
        0 <= r < 12,
    ensures
        (12 * s + r) / 12 == s,
        (12 * s + r) % 12 == r,
{
    vstd::arithmetic::div_mod::lemma_fundamental_div_mod_converse(12 * s + r, 12, s, r);
}

impl Deck {
    /// Builds the reference deck.
    pub fn new() -> (r: Deck)
        ensures
            r@ == reference_deck(),
    {
        let mut me = Deck { cards: Vec::new() };
        load_cards(&mut me);
        me
    }

    /// Appends a card to the deck.
    pub fn add(&mut self, _type: CardType, value: u8)
        ensures
            final(self)@ == old(self)@.push(Card { _type, value }),
    {
        self.cards.push(Card { _type, value });
    }

    /// The ids of every card of the deck, in deck order; the deck holds no
    /// jokers.
    pub fn as_ids_no_jokers(&self) -> (r: Vec<u8>)
        requires
            self@.len() == DECK_LEN,
        ensures
            r@ == playing_ids(),
    {
        let mut ids: Vec<u8> = Vec::new();
        let mut i: usize = 0;
        while i < self.cards.len()
            invariant
                self@.len() == DECK_LEN,
                i <= DECK_LEN,
                ids@ =~= playing_ids().subrange(0, i as int),
            decreases DECK_LEN - i,
        {
            ids.push(i as u8);
            i = i + 1;
        }
        ids
    }

    /// The card with the given id, if there is one.
    pub fn get_card(&self, id: &u8) -> (r: Option<Card>)
        ensures
            r == (if (*id as int) < self@.len() {
                Some(self@[*id as int])
            } else {
                None::<Card>
            }),
    {
        if (*id as usize) < self.cards.len() {
            Some(self.cards[*id as usize])
        } else {
            None
        }
    }

    /// The card whose id stands at position `i` of `card_ids`, if there is one.
    pub fn get_card_pos(&self, i: usize, card_ids: &Vec<u8>) -> (r: Option<Card>)
        ensures
            r == (if i < card_ids@.len() && (card_ids@[i as int] as int) < self@.len() {
                Some(self@[card_ids@[i as int] as int])
            } else {
                None::<Card>
            }),
    {
        if i < card_ids.len() {
            self.get_card(&card_ids[i])
        } else {
            None
        }
    }

    /// The cards of a stack, in stack order, skipping ids outside the deck.
    pub fn get_cards_from_stack(&self, stack: &CardStack) -> (r: Vec<Card>)
        ensures
            r@ == cards_in_deck(self@, stack@),
            (forall|k: int| 0 <= k < stack@.len() ==> (stack@[k] as int) < self@.len()) ==> r@
                == stack@.map_values(|id: u8| self@[id as int]),
    {
        let mut cards: Vec<Card> = Vec::new();
        let mut i: usize = 0;
        while i < stack.card_ids.len()
            invariant
                i <= stack@.len(),
                cards@ == cards_in_deck(self@, stack@.subrange(0, i as int)),
            decreases stack@.len() - i,
        {
            let ghost sub = stack@.subrange(0, i as int + 1);
            assert(sub.drop_last() =~= stack@.subrange(0, i as int));
            let id = stack.card_ids[i];
            if (id as usize) < self.cards.len() {
                cards.push(self.cards[id as usize]);
            }
            i = i + 1;
        }
        assert(stack@.subrange(0, stack@.len() as int) =~= stack@);
        proof {
            lemma_cards_in_deck_all(self@, stack@);
        }
        cards
    }
}

/// The cards that the ids stand for, in order, skipping ids outside the deck.
pub open spec fn cards_in_deck(deck: Seq<Card>, ids: Seq<u8>) -> Seq<Card>
    decreases ids.len(),
{
    if ids.len() == 0 {
        Seq::empty()
    } else if (ids.last() as int) < deck.len() {
        cards_in_deck(deck, ids.drop_last()).push(deck[ids.last() as int])
    } else {
        cards_in_deck(deck, ids.drop_last())
    }
}

proof fn lemma_cards_in_deck_all(deck: Seq<Card>, ids: Seq<u8>)
    ensures
        (forall|k: int| 0 <= k < ids.len() ==> (ids[k] as int) < deck.len()) ==> cards_in_deck(deck, ids)
            == ids.map_values(|id: u8| deck[id as int]),
    decreases ids.len(),
{
    if ids.len() > 0 {
        lemma_cards_in_deck_all(deck, ids.drop_last());
        if forall|k: int| 0 <= k < ids.len() ==> (ids[k] as int) < deck.len() {
            assert(forall|k: int| 0 <= k < ids.drop_last().len() ==> (ids.drop_last()[k] as int) < deck.len()
                ) by {
                assert forall|k: int| 0 <= k < ids.drop_last().len() implies (ids.drop_last()[k] as int) < deck.len() by {
                    assert(ids.drop_last()[k] == ids[k]);
                }
            }
            assert(ids.map_values(|id: u8| deck[id as int]) =~= ids.drop_last().map_values(|id: u8| deck[id as int]).push(
                deck[ids.last() as int],
            ));
        }
    } else {
        assert(ids.map_values(|id: u8| deck[id as int]) =~= Seq::<Card>::empty());
    }
}

/// Fills an empty deck with the reference cards: the four suits, each
/// from 12 down to 1.
pub fn load_cards(deck: &mut Deck)
    requires
        old(deck)@.len() == 0,
    ensures
        final(deck)@ =~= reference_deck(),
{
    let suits: [CardType; 4] = [CardType::Sword, CardType::Club, CardType::Gold, CardType::Cup];
    let mut s: usize = 0;
    while s < 4
        invariant
            0 <= s <= 4,
            suits@ == seq![CardType::Sword, CardType::Club, CardType::Gold, CardType::Cup],
            deck@.len() == SUIT_LEN * s,
            forall|j: int| 0 <= j < deck@.len() ==> deck@[j] == reference_card(j),
        decreases 4 - s,
    {
        let mut v: u8 = 12;
        while v >= 1
            invariant
                0 <= s < 4,
                0 <= v <= 12,
                suits@ == seq![CardType::Sword, CardType::Club, CardType::Gold, CardType::Cup],
                deck@.len() == SUIT_LEN * s + (12 - v),
                forall|j: int| 0 <= j < deck@.len() ==> deck@[j] == reference_card(j),
            decreases v,
        {
            proof {
                lemma_block_index(s as int, 12 - v);
            }
            deck.add(suits[s], v);
            v = v - 1;
        }
        s = s + 1;
    }
}

/// Relies on rand's `SliceRandom::shuffle` with the thread-local generator: it
/// reorders the slice in place, so the same ids remain.
#[verifier::external_body]
fn shuffle_ids(ids: &mut Vec<u8>)
    ensures
        final(ids)@.len() == old(ids)@.len(),
        final(ids)@.to_multiset() == old(ids)@.to_multiset(),
{
    ids.shuffle(&mut rand::thread_rng());
}

/// An ordered pile of card ids, face up or face down.
pub struct CardStack {
    pub is_face_up: bool,
    pub card_ids: Vec<u8>,
}

impl View for CardStack {
    type V = Seq<u8>;

    open spec fn view(&self) -> Seq<u8> {
        self.card_ids@
    }
}

/// The ids that `n` single moves take off the top of `from`, in the order
/// they land on the receiving stack.
pub open spec fn top_n(from: Seq<u8>, n: int) -> Seq<u8> {
    from.subrange(from.len() - n, from.len() as int).reverse()
}

impl CardStack {
    /// An empty stack.
    pub fn new(is_face_up: bool) -> (r: CardStack)
        ensures
            r@ == Seq::<u8>::empty(),
            r.is_face_up == is_face_up,
    {
        CardStack { is_face_up, card_ids: Vec::new() }
    }

    /// Replaces the stack's ids with those of every playing card of the deck.
    pub fn add_cards(&mut self, deck: &Deck)
        requires
            deck@.len() == DECK_LEN,
        ensures
            final(self)@ == playing_ids(),
            final(self).is_face_up == old(self).is_face_up,
    {
        self.card_ids = deck.as_ids_no_jokers();
    }

    /// Moves every id of `from` onto this stack, keeping their order.
    pub fn add_all_from(&mut self, from: &mut CardStack)
        ensures
            final(self)@ == old(self)@ + old(from)@,
            final(from)@ == Seq::<u8>::empty(),
            final(self).is_face_up == old(self).is_face_up,
            final(from).is_face_up == old(from).is_face_up,
    {
        self.card_ids.append(&mut from.card_ids);
    }

    /// Moves the top id of `from` onto this stack; false when `from` is empty.
    pub fn add_one_from(&mut self, from: &mut CardStack) -> (r: bool)
        ensures
            r == (old(from)@.len() > 0),
            r ==> final(from)@ == old(from)@.drop_last(),
            r ==> final(self)@ == old(self)@.push(old(from)@.last()),
            !r ==> final(from)@ == old(from)@ && final(self)@ == old(self)@,
            final(self).is_face_up == old(self).is_face_up,
            final(from).is_face_up == old(from).is_face_up,
    {
        let mut result = false;
        if let Some(id) = from.card_ids.pop() {
            self.card_ids.push(id);
            result = true;
        }
        result
    }

    /// Moves `n` ids from the top of `from` onto this stack, one at a time.
    /// When `from` holds fewer than `n` ids nothing moves and the result is false.
    pub fn add_n_from(&mut self, from: &mut CardStack, n: u8) -> (r: bool)
        ensures
            r == (old(from)@.len() >= n),
            r ==> final(from)@ == old(from)@.subrange(0, old(from)@.len() - n),
            r ==> final(self)@ == old(self)@ + top_n(old(from)@, n as int),
            !r ==> final(from)@ == old(from)@ && final(self)@ == old(self)@,
            final(self).is_face_up == old(self).is_face_up,
            final(from).is_face_up == old(from).is_face_up,
    {
        if from.card_ids.len() < n as usize {
            return false;
        }
        let ghost from0 = from@;
        let ghost self0 = self@;
        let mut k: u8 = 0;
        while k < n
            invariant
                k <= n,
                from0.len() >= n,
                from@ == from0.subrange(0, from0.len() - k),
                self@ == self0 + top_n(from0, k as int),
                self.is_face_up == old(self).is_face_up,
                from.is_face_up == old(from).is_face_up,
            decreases n - k,
        {
            let moved = self.add_one_from(from);
            assert(moved);
            proof {
                let len = from0.len() as int;
                assert(top_n(from0, k + 1) =~= top_n(from0, k as int).push(from0[len - k - 1]));
            }
            k = k + 1;
        }
        true
    }

    /// Puts the ids in a random order.
    pub fn shuffle(&mut self)
        ensures
            final(self)@.len() == old(self)@.len(),
            final(self)@.to_multiset() == old(self)@.to_multiset(),
            final(self).is_face_up == old(self).is_face_up,
    {
        shuffle_ids(&mut self.card_ids);
    }

    /// Whether the stack holds no id.
    pub fn is_empty(&self) -> (r: bool)
        ensures
            r == (self@.len() == 0),
    {
        self.card_ids.is_empty()
    }
}

} // verus!
