//! Card pictures for the terminal: each card as nine lines of text, and a
//! hand of four as a two by two grid.
use crate::cards::{reference_card, Card, CardStack, CardType, DECK_LEN, SUIT_LEN};
use crate::game::Game24;
use vstd::prelude::*;
use vstd::string::StringExecFns;

verus! {

/// Whether the card has a picture: a joker of value 0, or a
/// suit card from 1 to 12.
pub open spec fn is_deck_card(c: Card) -> bool {
    if c._type == CardType::Joker {
        c.value == 0
    } else {
        1 <= c.value <= 12
    }
}

/// The lines joined into one text, each ended by a newline.
pub open spec fn lines_text(lines: Seq<Seq<char>>) -> Seq<char>
    decreases lines.len(),
{
    if lines.len() == 0 {
        Seq::empty()
    } else {
        lines_text(lines.drop_last()) + lines.last() + seq!['\n']
    }
}

/// The picture of a card as one text.
pub open spec fn card_text(c: Card) -> Seq<char> {
    lines_text(card_art(c))
}

/// Whether `grid` shows the four cards, two to a row.
pub open spec fn shows_hand(grid: Seq<Vec<String>>, cards: Seq<Card>) -> bool {
    &&& grid.len() == 2
    &&& grid[0]@.len() == 2
    &&& grid[1]@.len() == 2
    &&& grid[0]@[0]@ == card_text(cards[0])
    &&& grid[0]@[1]@ == card_text(cards[1])
    &&& grid[1]@[0]@ == card_text(cards[2])
    &&& grid[1]@[1]@ == card_text(cards[3])
}

/// The picture of a card, line by line.
pub open spec fn card_art(c: Card) -> Seq<Seq<char>> {
    match c._type {
        CardType::Joker => joker_art(),
        CardType::Sword => sword_art(c.value),
        CardType::Club => club_art(c.value),
        CardType::Gold => gold_art(c.value),
        CardType::Cup => cup_art(c.value),
    }
}

/// The pictures of the Sword cards.
pub open spec fn sword_art(value: u8) -> Seq<Seq<char>> {
    if value == 12 {
        seq![
            r#"┌──  ────  ──┐"#@,
            r#"│12  /^^^┼^\ │"#@,
            r#"│|\ (  ° ͜ʖ° )│"#@,
            r#"│ \\ \     / │"#@,
            r#"│ _\\_---⊙-\ │"#@,
            r#"│   ฿   .๏. \│"#@,
            r#"│  /    .๏.  │"#@,
            r#"│ /     .๏.12│"#@,
            r#"└──  ────  ──┘"#@,
        ]
    } else if value == 11 {
        seq![
            r#"┌──  ────  ──┐"#@,
            r#"│11    ┌──@─┐│"#@,
            r#"│|\    (° ͜ʖ°)│"#@,
            r#"│ \\   /    \│"#@,
            r#"│ _\\_Λ  Λ   │"#@,
            r#"│   ฿(⊙  ⊙)\~│"#@,
            r#"│     )  (  \│"#@,
            r#"│     (..) 11│"#@,
            r#"└──  ────  ──┘"#@,
        ]
    } else if value == 10 {
        seq![
            r#"┌──  ────  ──┐"#@,
            r#"│10   ┌───@┐ │"#@,
            r#"│     │____│ │"#@,
            r#"│  |\ (° ͜ʖ°) │"#@,
            r#"│   \\/    \ │"#@,
            r#"│   _\\_   / │"#@,
            r#"│     ฿\  /฿ │"#@,
            r#"│       || 10│"#@,
            r#"└──  ────  ──┘"#@,
        ]
    } else if value == 9 {
        seq![
            r#"┌──  ────  ──┐"#@,
            r#"│9           │"#@,
            r#"│            │"#@,
            r#"│   |\       │"#@,
            r#"│    \\      │"#@,
            r#"│    _\\_    │"#@,
            r#"│      \     │"#@,
            r#"│           9│"#@,
            r#"└──  ────  ──┘"#@,
        ]
    } else if value == 8 {
        seq![
            r#"┌──  ────  ──┐"#@,
            r#"│8           │"#@,
            r#"│            │"#@,
            r#"│   |\       │"#@,
            r#"│    \\      │"#@,
            r#"│    _\\_    │"#@,
            r#"│      \     │"#@,
            r#"│           8│"#@,
            r#"└──  ────  ──┘"#@,
        ]
    } else if value == 7 {
        seq![
            r#"┌──  ────  ──┐"#@,
            r#"│7           │"#@,
            r#"│            │"#@,
            r#"│   |\       │"#@,
            r#"│    \\      │"#@,
            r#"│    _\\_    │"#@,
            r#"│      \     │"#@,
            r#"│           7│"#@,
            r#"└──  ────  ──┘"#@,
        ]
    } else if value == 6 {
        seq![
            r#"┌──  ────  ──┐"#@,
            r#"│6           │"#@,
            r#"│            │"#@,
            r#"│   |\       │"#@,
            r#"│    \\      │"#@,
            r#"│    _\\_    │"#@,
            r#"│      \     │"#@,
            r#"│           6│"#@,
            r#"└──  ────  ──┘"#@,
        ]
    } else if value == 5 {
        seq![
            r#"┌──  ────  ──┐"#@,
            r#"│5           │"#@,
            r#"│            │"#@,
            r#"│   |\       │"#@,
            r#"│    \\      │"#@,
            r#"│    _\\_    │"#@,
            r#"│      \     │"#@,
            r#"│           5│"#@,
            r#"└──  ────  ──┘"#@,
        ]
    } else if value == 4 {
        seq![
            r#"┌──  ────  ──┐"#@,
            r#"│4           │"#@,
            r#"│            │"#@,
            r#"│   |\       │"#@,
            r#"│    \\      │"#@,
            r#"│    _\\_    │"#@,
            r#"│      \     │"#@,
            r#"│           4│"#@,
            r#"└──  ────  ──┘"#@,
        ]
    } else if value == 3 {
        seq![
            r#"┌──  ────  ──┐"#@,
            r#"│3           │"#@,
            r#"│            │"#@,
            r#"│   |\       │"#@,
            r#"│    \\      │"#@,
            r#"│    _\\_    │"#@,
            r#"│      \     │"#@,
            r#"│           3│"#@,
            r#"└──  ────  ──┘"#@,
        ]
    } else if value == 2 {
        seq![
            r#"┌──  ────  ──┐"#@,
            r#"│2           │"#@,
            r#"│            │"#@,
            r#"│   |\       │"#@,
            r#"│    \\      │"#@,
            r#"│    _\\_    │"#@,
            r#"│      \     │"#@,
            r#"│           2│"#@,
            r#"└──  ────  ──┘"#@,
        ]
    } else {
        seq![
            r#"┌──  ────  ──┐"#@,
            r#"│1           │"#@,
            r#"│            │"#@,
            r#"│   |\       │"#@,
            r#"│    \\      │"#@,
            r#"│    _\\_    │"#@,
            r#"│      \     │"#@,
            r#"│           1│"#@,
            r#"└──  ────  ──┘"#@,
        ]
    }
}

/// The pictures of the Club cards.
pub open spec fn club_art(value: u8) -> Seq<Seq<char>> {
    if value == 12 {
        seq![
            r#"┌─  ──  ──  ─┐"#@,
            r#"│12  /^^^┼^\ │"#@,
            r#"│.-.(  ° ͜ʖ° )│"#@,
            r#"│(  )\     / │"#@,
            r#"│ ( )/---⊙-\ │"#@,
            r#"│  ()   .๏. \│"#@,
            r#"│  /    .๏.  │"#@,
            r#"│ /     .๏.12│"#@,
            r#"└─  ──  ──  ─┘"#@,
        ]
    } else if value == 11 {
        seq![
            r#"┌─  ──  ──  ─┐"#@,
            r#"│11    ┌──@─┐│"#@,
            r#"│.-.   (° ͜ʖ°)│"#@,
            r#"│(  )  /    \│"#@,
            r#"│ ( ) Λ  Λ   │"#@,
            r#"│  ()(⊙  ⊙)\~│"#@,
            r#"│     )  (  \│"#@,
            r#"│     (..) 11│"#@,
            r#"└─  ──  ──  ─┘"#@,
        ]
    } else if value == 10 {
        seq![
            r#"┌─  ──  ──  ─┐"#@,
            r#"│10   ┌───@┐ │"#@,
            r#"│.-.  │____│ │"#@,
            r#"│(  ) (° ͜ʖ°) │"#@,
            r#"│ ( ) /    \ │"#@,
            r#"│  ฿)/\    / │"#@,
            r#"│      \  /฿ │"#@,
            r#"│       || 10│"#@,
            r#"└─  ──  ──  ─┘"#@,
        ]
    } else if value == 9 {
        seq![
            r#"┌─  ──  ──  ─┐"#@,
            r#"│9           │"#@,
            r#"│            │"#@,
            r#"│    .-.     │"#@,
            r#"│    (  )    │"#@,
            r#"│     ( )    │"#@,
            r#"│      ()    │"#@,
            r#"│           9│"#@,
            r#"└─  ──  ──  ─┘"#@,
        ]
    } else if value == 8 {
        seq![
            r#"┌─  ──  ──  ─┐"#@,
            r#"│8           │"#@,
            r#"│            │"#@,
            r#"│    .-.     │"#@,
            r#"│    (  )    │"#@,
            r#"│     ( )    │"#@,
            r#"│      ()    │"#@,
            r#"│           8│"#@,
            r#"└─  ──  ──  ─┘"#@,
        ]
    } else if value == 7 {
        seq![
            r#"┌─  ──  ──  ─┐"#@,
            r#"│7           │"#@,
            r#"│            │"#@,
            r#"│    .-.     │"#@,
            r#"│    (  )    │"#@,
            r#"│     ( )    │"#@,
            r#"│      ()    │"#@,
            r#"│           7│"#@,
            r#"└─  ──  ──  ─┘"#@,
        ]
    } else if value == 6 {
        seq![
            r#"┌─  ──  ──  ─┐"#@,
            r#"│6           │"#@,
            r#"│            │"#@,
            r#"│    .-.     │"#@,
            r#"│    (  )    │"#@,
            r#"│     ( )    │"#@,
            r#"│      ()    │"#@,
            r#"│           6│"#@,
            r#"└─  ──  ──  ─┘"#@,
        ]
    } else if value == 5 {
        seq![
            r#"┌─  ──  ──  ─┐"#@,
            r#"│5           │"#@,
            r#"│            │"#@,
            r#"│    .-.     │"#@,
            r#"│    (  )    │"#@,
            r#"│     ( )    │"#@,
            r#"│      ()    │"#@,
            r#"│           5│"#@,
            r#"└─  ──  ──  ─┘"#@,
        ]
    } else if value == 4 {
        seq![
            r#"┌─  ──  ──  ─┐"#@,
            r#"│4           │"#@,
            r#"│            │"#@,
            r#"│    .-.     │"#@,
            r#"│    (  )    │"#@,
            r#"│     ( )    │"#@,
            r#"│      ()    │"#@,
            r#"│           4│"#@,
            r#"└─  ──  ──  ─┘"#@,
        ]
    } else if value == 3 {
        seq![
            r#"┌─  ──  ──  ─┐"#@,
            r#"│3           │"#@,
            r#"│            │"#@,
            r#"│    .-.     │"#@,
            r#"│    (  )    │"#@,
            r#"│     ( )    │"#@,
            r#"│      ()    │"#@,
            r#"│           3│"#@,
            r#"└─  ──  ──  ─┘"#@,
        ]
    } else if value == 2 {
        seq![
            r#"┌─  ──  ──  ─┐"#@,
            r#"│2           │"#@,
            r#"│            │"#@,
            r#"│    .-.     │"#@,
            r#"│    (  )    │"#@,
            r#"│     ( )    │"#@,
            r#"│      ()    │"#@,
            r#"│           2│"#@,
            r#"└─  ──  ──  ─┘"#@,
        ]
    } else {
        seq![
            r#"┌─  ──  ──  ─┐"#@,
            r#"│1           │"#@,
            r#"│            │"#@,
            r#"│    .-.     │"#@,
            r#"│    (  )    │"#@,
            r#"│     ( )    │"#@,
            r#"│      ()    │"#@,
            r#"│           1│"#@,
            r#"└─  ──  ──  ─┘"#@,
        ]
    }
}

/// The pictures of the Gold cards.
pub open spec fn gold_art(value: u8) -> Seq<Seq<char>> {
    if value == 12 {
        seq![
            r#"┌────────────┐"#@,
            r#"│12  /^^^┼^\ │"#@,
            r#"│   (  ° ͜ʖ° )│"#@,
            r#"│ .-.\     / │"#@,
            r#"│( O )---⊙-\ │"#@,
            r#"│ `฿`   .๏. \│"#@,
            r#"│  /    .๏.  │"#@,
            r#"│ /     .๏.12│"#@,
            r#"└────────────┘"#@,
        ]
    } else if value == 11 {
        seq![
            r#"┌────────────┐"#@,
            r#"│11    ┌──@─┐│"#@,
            r#"│ .-.  (° ͜ʖ°)│"#@,
            r#"│( O ) /    \│"#@,
            r#"│ `-฿ Λ  Λ   │"#@,
            r#"│    (⊙  ⊙)\~│"#@,
            r#"│     )  (  \│"#@,
            r#"│     (..) 11│"#@,
            r#"└────────────┘"#@,
        ]
    } else if value == 10 {
        seq![
            r#"┌────────────┐"#@,
            r#"│10   ┌───@┐ │"#@,
            r#"│     │____│ │"#@,
            r#"│ .-. (° ͜ʖ°) │"#@,
            r#"│( O )/    \ │"#@,
            r#"│ `฿` \    / │"#@,
            r#"│      \  /฿ │"#@,
            r#"│       || 10│"#@,
            r#"└────────────┘"#@,
        ]
    } else if value == 9 {
        seq![
            r#"┌────────────┐"#@,
            r#"│9           │"#@,
            r#"│            │"#@,
            r#"│    .-.     │"#@,
            r#"│   ( O )    │"#@,
            r#"│    `-`     │"#@,
            r#"│            │"#@,
            r#"│           9│"#@,
            r#"└────────────┘"#@,
        ]
    } else if value == 8 {
        seq![
            r#"┌────────────┐"#@,
            r#"│8           │"#@,
            r#"│            │"#@,
            r#"│    .-.     │"#@,
            r#"│   ( O )    │"#@,
            r#"│    `-`     │"#@,
            r#"│            │"#@,
            r#"│           8│"#@,
            r#"└────────────┘"#@,
        ]
    } else if value == 7 {
        seq![
            r#"┌────────────┐"#@,
            r#"│7           │"#@,
            r#"│            │"#@,
            r#"│    .-.     │"#@,
            r#"│   ( O )    │"#@,
            r#"│    `-`     │"#@,
            r#"│            │"#@,
            r#"│           7│"#@,
            r#"└────────────┘"#@,
        ]
    } else if value == 6 {
        seq![
            r#"┌────────────┐"#@,
            r#"│6           │"#@,
            r#"│            │"#@,
            r#"│    .-.     │"#@,
            r#"│   ( O )    │"#@,
            r#"│    `-`     │"#@,
            r#"│            │"#@,
            r#"│           6│"#@,
            r#"└────────────┘"#@,
        ]
    } else if value == 5 {
        seq![
            r#"┌────────────┐"#@,
            r#"│5           │"#@,
            r#"│            │"#@,
            r#"│    .-.     │"#@,
            r#"│   ( O )    │"#@,
            r#"│    `-`     │"#@,
            r#"│            │"#@,
            r#"│           5│"#@,
            r#"└────────────┘"#@,
        ]
    } else if value == 4 {
        seq![
            r#"┌────────────┐"#@,
            r#"│4           │"#@,
            r#"│            │"#@,
            r#"│    .-.     │"#@,
            r#"│   ( O )    │"#@,
            r#"│    `-`     │"#@,
            r#"│            │"#@,
            r#"│           4│"#@,
            r#"└────────────┘"#@,
        ]
    } else if value == 3 {
        seq![
            r#"┌────────────┐"#@,
            r#"│3           │"#@,
            r#"│            │"#@,
            r#"│    .-.     │"#@,
            r#"│   ( O )    │"#@,
            r#"│    `-`     │"#@,
            r#"│            │"#@,
            r#"│           3│"#@,
            r#"└────────────┘"#@,
        ]
    } else if value == 2 {
        seq![
            r#"┌────────────┐"#@,
            r#"│2           │"#@,
            r#"│            │"#@,
            r#"│    .-.     │"#@,
            r#"│   ( O )    │"#@,
            r#"│    `-`     │"#@,
            r#"│            │"#@,
            r#"│           2│"#@,
            r#"└────────────┘"#@,
        ]
    } else {
        seq![
            r#"┌────────────┐"#@,
            r#"│1           │"#@,
            r#"│            │"#@,
            r#"│    .-.     │"#@,
            r#"│   ( O )    │"#@,
            r#"│    `-`     │"#@,
            r#"│            │"#@,
            r#"│           1│"#@,
            r#"└────────────┘"#@,
        ]
    }
}

/// The pictures of the Cup cards.
pub open spec fn cup_art(value: u8) -> Seq<Seq<char>> {
    if value == 12 {
        seq![
            r#"┌────    ────┐"#@,
            r#"│12  /^^^┼^\ │"#@,
            r#"│   (  ° ͜ʖ° )│"#@,
            r#"│ ___\     / │"#@,
            r#"│(___)---⊙-\ │"#@,
            r#"│ ฿_/   .๏. \│"#@,
            r#"│  /    .๏.  │"#@,
            r#"│ /     .๏.12│"#@,
            r#"└────    ────┘"#@,
        ]
    } else if value == 11 {
        seq![
            r#"┌────    ────┐"#@,
            r#"│11    ┌──@─┐│"#@,
            r#"│ ___  (° ͜ʖ°)│"#@,
            r#"│(___) /    \│"#@,
            r#"│ \_฿ Λ  Λ   │"#@,
            r#"│    (⊙  ⊙)\~│"#@,
            r#"│     )  (  \│"#@,
            r#"│     (..) 11│"#@,
            r#"└────    ────┘"#@,
        ]
    } else if value == 10 {
        seq![
            r#"┌────    ────┐"#@,
            r#"│10   ┌───@┐ │"#@,
            r#"│     │____│ │"#@,
            r#"│ ___ (° ͜ʖ°) │"#@,
            r#"│(___)/    \ │"#@,
            r#"│ \_฿ \    / │"#@,
            r#"│      \  /฿ │"#@,
            r#"│       || 10│"#@,
            r#"└────    ────┘"#@,
        ]
    } else if value == 9 {
        seq![
            r#"┌────    ────┐"#@,
            r#"│9           │"#@,
            r#"│            │"#@,
            r#"│    ___     │"#@,
            r#"│   (___)    │"#@,
            r#"│    \_/     │"#@,
            r#"│            │"#@,
            r#"│           9│"#@,
            r#"└────    ────┘"#@,
        ]
    } else if value == 8 {
        seq![
            r#"┌────    ────┐"#@,
            r#"│8           │"#@,
            r#"│            │"#@,
            r#"│    ___     │"#@,
            r#"│   (___)    │"#@,
            r#"│    \_/     │"#@,
            r#"│            │"#@,
            r#"│           8│"#@,
            r#"└────    ────┘"#@,
        ]
    } else if value == 7 {
        seq![
            r#"┌────    ────┐"#@,
            r#"│7           │"#@,
            r#"│            │"#@,
            r#"│    ___     │"#@,
            r#"│   (___)    │"#@,
            r#"│    \_/     │"#@,
            r#"│            │"#@,
            r#"│           7│"#@,
            r#"└────    ────┘"#@,
        ]
    } else if value == 6 {
        seq![
            r#"┌────    ────┐"#@,
            r#"│6           │"#@,
            r#"│            │"#@,
            r#"│    ___     │"#@,
            r#"│   (___)    │"#@,
            r#"│    \_/     │"#@,
            r#"│            │"#@,
            r#"│           6│"#@,
            r#"└────    ────┘"#@,
        ]
    } else if value == 5 {
        seq![
            r#"┌────    ────┐"#@,
            r#"│5           │"#@,
            r#"│            │"#@,
            r#"│    ___     │"#@,
            r#"│   (___)    │"#@,
            r#"│    \_/     │"#@,
            r#"│            │"#@,
            r#"│           5│"#@,
            r#"└────    ────┘"#@,
        ]
    } else if value == 4 {
        seq![
            r#"┌────    ────┐"#@,
            r#"│4           │"#@,
            r#"│            │"#@,
            r#"│    ___     │"#@,
            r#"│   (___)    │"#@,
            r#"│    \_/     │"#@,
            r#"│            │"#@,
            r#"│           4│"#@,
            r#"└────    ────┘"#@,
        ]
    } else if value == 3 {
        seq![
            r#"┌────    ────┐"#@,
            r#"│3           │"#@,
            r#"│            │"#@,
            r#"│    ___     │"#@,
            r#"│   (___)    │"#@,
            r#"│    \_/     │"#@,
            r#"│            │"#@,
            r#"│           3│"#@,
            r#"└────    ────┘"#@,
        ]
    } else if value == 2 {
        seq![
            r#"┌────    ────┐"#@,
            r#"│2           │"#@,
            r#"│            │"#@,
            r#"│    ___     │"#@,
            r#"│   (___)    │"#@,
            r#"│    \_/     │"#@,
            r#"│            │"#@,
            r#"│           2│"#@,
            r#"└────    ────┘"#@,
        ]
    } else {
        seq![
            r#"┌────    ────┐"#@,
            r#"│1           │"#@,
            r#"│            │"#@,
            r#"│    ___     │"#@,
            r#"│   (___)    │"#@,
            r#"│    \_/     │"#@,
            r#"│            │"#@,
            r#"│           1│"#@,
            r#"└────    ────┘"#@,
        ]
    }
}

/// The picture of a joker.
pub open spec fn joker_art() -> Seq<Seq<char>> {
    seq![
        r#"┌────────────┐"#@,
        r#"│J    ◔   ⊙  │"#@,
        r#"│O  ๏ |\  |\ │"#@,
        r#"│K  |\/ |/ | │"#@,
        r#"│E  ʕ  ͡o  ͡o| │"#@,
        r#"│R  °༽   ͜ʖ༼  │"#@,
        r#"│     ༽  ༼   │"#@,
        r#"│            │"#@,
        r#"└────────────┘"#@,
    ]
}

fn front_joker() -> (r: Vec<&'static str>)
    ensures
        r@.map_values(|l: &str| l@) == joker_art(),
{
    let r = vec![
        r#"┌────────────┐"#,
        r#"│J    ◔   ⊙  │"#,
        r#"│O  ๏ |\  |\ │"#,
        r#"│K  |\/ |/ | │"#,
        r#"│E  ʕ  ͡o  ͡o| │"#,
        r#"│R  °༽   ͜ʖ༼  │"#,
        r#"│     ༽  ༼   │"#,
        r#"│            │"#,
        r#"└────────────┘"#,
    ];
    assert(r@.map_values(|l: &str| l@) =~= seq![
        r#"┌────────────┐"#@,
        r#"│J    ◔   ⊙  │"#@,
        r#"│O  ๏ |\  |\ │"#@,
        r#"│K  |\/ |/ | │"#@,
        r#"│E  ʕ  ͡o  ͡o| │"#@,
        r#"│R  °༽   ͜ʖ༼  │"#@,
        r#"│     ༽  ༼   │"#@,
        r#"│            │"#@,
        r#"└────────────┘"#@,
    ]);
    r
}

fn front_sword(value: u8) -> (r: Vec<&'static str>)
    ensures
        r@.map_values(|l: &str| l@) == sword_art(value),
{
    if value == 12 {
        let r = vec![
            r#"┌──  ────  ──┐"#,
            r#"│12  /^^^┼^\ │"#,
            r#"│|\ (  ° ͜ʖ° )│"#,
            r#"│ \\ \     / │"#,
            r#"│ _\\_---⊙-\ │"#,
            r#"│   ฿   .๏. \│"#,
            r#"│  /    .๏.  │"#,
            r#"│ /     .๏.12│"#,
            r#"└──  ────  ──┘"#,
        ];
        assert(r@.map_values(|l: &str| l@) =~= seq![
            r#"┌──  ────  ──┐"#@,
            r#"│12  /^^^┼^\ │"#@,
            r#"│|\ (  ° ͜ʖ° )│"#@,
            r#"│ \\ \     / │"#@,
            r#"│ _\\_---⊙-\ │"#@,
            r#"│   ฿   .๏. \│"#@,
            r#"│  /    .๏.  │"#@,
            r#"│ /     .๏.12│"#@,
            r#"└──  ────  ──┘"#@,
        ]);
        r
    } else if value == 11 {
        let r = vec![
            r#"┌──  ────  ──┐"#,
            r#"│11    ┌──@─┐│"#,
            r#"│|\    (° ͜ʖ°)│"#,
            r#"│ \\   /    \│"#,
            r#"│ _\\_Λ  Λ   │"#,
            r#"│   ฿(⊙  ⊙)\~│"#,
            r#"│     )  (  \│"#,
            r#"│     (..) 11│"#,
            r#"└──  ────  ──┘"#,
        ];
        assert(r@.map_values(|l: &str| l@) =~= seq![
            r#"┌──  ────  ──┐"#@,
            r#"│11    ┌──@─┐│"#@,
            r#"│|\    (° ͜ʖ°)│"#@,
            r#"│ \\   /    \│"#@,
            r#"│ _\\_Λ  Λ   │"#@,
            r#"│   ฿(⊙  ⊙)\~│"#@,
            r#"│     )  (  \│"#@,
            r#"│     (..) 11│"#@,
            r#"└──  ────  ──┘"#@,
        ]);
        r
    } else if value == 10 {
        let r = vec![
            r#"┌──  ────  ──┐"#,
            r#"│10   ┌───@┐ │"#,
            r#"│     │____│ │"#,
            r#"│  |\ (° ͜ʖ°) │"#,
            r#"│   \\/    \ │"#,
            r#"│   _\\_   / │"#,
            r#"│     ฿\  /฿ │"#,
            r#"│       || 10│"#,
            r#"└──  ────  ──┘"#,
        ];
        assert(r@.map_values(|l: &str| l@) =~= seq![
            r#"┌──  ────  ──┐"#@,
            r#"│10   ┌───@┐ │"#@,
            r#"│     │____│ │"#@,
            r#"│  |\ (° ͜ʖ°) │"#@,
            r#"│   \\/    \ │"#@,
            r#"│   _\\_   / │"#@,
            r#"│     ฿\  /฿ │"#@,
            r#"│       || 10│"#@,
            r#"└──  ────  ──┘"#@,
        ]);
        r
    } else if value == 9 {
        let r = vec![
            r#"┌──  ────  ──┐"#,
            r#"│9           │"#,
            r#"│            │"#,
            r#"│   |\       │"#,
            r#"│    \\      │"#,
            r#"│    _\\_    │"#,
            r#"│      \     │"#,
            r#"│           9│"#,
            r#"└──  ────  ──┘"#,
        ];
        assert(r@.map_values(|l: &str| l@) =~= seq![
            r#"┌──  ────  ──┐"#@,
            r#"│9           │"#@,
            r#"│            │"#@,
            r#"│   |\       │"#@,
            r#"│    \\      │"#@,
            r#"│    _\\_    │"#@,
            r#"│      \     │"#@,
            r#"│           9│"#@,
            r#"└──  ────  ──┘"#@,
        ]);
        r
    } else if value == 8 {
        let r = vec![
            r#"┌──  ────  ──┐"#,
            r#"│8           │"#,
            r#"│            │"#,
            r#"│   |\       │"#,
            r#"│    \\      │"#,
            r#"│    _\\_    │"#,
            r#"│      \     │"#,
            r#"│           8│"#,
            r#"└──  ────  ──┘"#,
        ];
        assert(r@.map_values(|l: &str| l@) =~= seq![
            r#"┌──  ────  ──┐"#@,
            r#"│8           │"#@,
            r#"│            │"#@,
            r#"│   |\       │"#@,
            r#"│    \\      │"#@,
            r#"│    _\\_    │"#@,
            r#"│      \     │"#@,
            r#"│           8│"#@,
            r#"└──  ────  ──┘"#@,
        ]);
        r
    } else if value == 7 {
        let r = vec![
            r#"┌──  ────  ──┐"#,
            r#"│7           │"#,
            r#"│            │"#,
            r#"│   |\       │"#,
            r#"│    \\      │"#,
            r#"│    _\\_    │"#,
            r#"│      \     │"#,
            r#"│           7│"#,
            r#"└──  ────  ──┘"#,
        ];
        assert(r@.map_values(|l: &str| l@) =~= seq![
            r#"┌──  ────  ──┐"#@,
            r#"│7           │"#@,
            r#"│            │"#@,
            r#"│   |\       │"#@,
            r#"│    \\      │"#@,
            r#"│    _\\_    │"#@,
            r#"│      \     │"#@,
            r#"│           7│"#@,
            r#"└──  ────  ──┘"#@,
        ]);
        r
    } else if value == 6 {
        let r = vec![
            r#"┌──  ────  ──┐"#,
            r#"│6           │"#,
            r#"│            │"#,
            r#"│   |\       │"#,
            r#"│    \\      │"#,
            r#"│    _\\_    │"#,
            r#"│      \     │"#,
            r#"│           6│"#,
            r#"└──  ────  ──┘"#,
        ];
        assert(r@.map_values(|l: &str| l@) =~= seq![
            r#"┌──  ────  ──┐"#@,
            r#"│6           │"#@,
            r#"│            │"#@,
            r#"│   |\       │"#@,
            r#"│    \\      │"#@,
            r#"│    _\\_    │"#@,
            r#"│      \     │"#@,
            r#"│           6│"#@,
            r#"└──  ────  ──┘"#@,
        ]);
        r
    } else if value == 5 {
        let r = vec![
            r#"┌──  ────  ──┐"#,
            r#"│5           │"#,
            r#"│            │"#,
            r#"│   |\       │"#,
            r#"│    \\      │"#,
            r#"│    _\\_    │"#,
            r#"│      \     │"#,
            r#"│           5│"#,
            r#"└──  ────  ──┘"#,
        ];
        assert(r@.map_values(|l: &str| l@) =~= seq![
            r#"┌──  ────  ──┐"#@,
            r#"│5           │"#@,
            r#"│            │"#@,
            r#"│   |\       │"#@,
            r#"│    \\      │"#@,
            r#"│    _\\_    │"#@,
            r#"│      \     │"#@,
            r#"│           5│"#@,
            r#"└──  ────  ──┘"#@,
        ]);
        r
    } else if value == 4 {
        let r = vec![
            r#"┌──  ────  ──┐"#,
            r#"│4           │"#,
            r#"│            │"#,
            r#"│   |\       │"#,
            r#"│    \\      │"#,
            r#"│    _\\_    │"#,
            r#"│      \     │"#,
            r#"│           4│"#,
            r#"└──  ────  ──┘"#,
        ];
        assert(r@.map_values(|l: &str| l@) =~= seq![
            r#"┌──  ────  ──┐"#@,
            r#"│4           │"#@,
            r#"│            │"#@,
            r#"│   |\       │"#@,
            r#"│    \\      │"#@,
            r#"│    _\\_    │"#@,
            r#"│      \     │"#@,
            r#"│           4│"#@,
            r#"└──  ────  ──┘"#@,
        ]);
        r
    } else if value == 3 {
        let r = vec![
            r#"┌──  ────  ──┐"#,
            r#"│3           │"#,
            r#"│            │"#,
            r#"│   |\       │"#,
            r#"│    \\      │"#,
            r#"│    _\\_    │"#,
            r#"│      \     │"#,
            r#"│           3│"#,
            r#"└──  ────  ──┘"#,
        ];
        assert(r@.map_values(|l: &str| l@) =~= seq![
            r#"┌──  ────  ──┐"#@,
            r#"│3           │"#@,
            r#"│            │"#@,
            r#"│   |\       │"#@,
            r#"│    \\      │"#@,
            r#"│    _\\_    │"#@,
            r#"│      \     │"#@,
            r#"│           3│"#@,
            r#"└──  ────  ──┘"#@,
        ]);
        r
    } else if value == 2 {
        let r = vec![
            r#"┌──  ────  ──┐"#,
            r#"│2           │"#,
            r#"│            │"#,
            r#"│   |\       │"#,
            r#"│    \\      │"#,
            r#"│    _\\_    │"#,
            r#"│      \     │"#,
            r#"│           2│"#,
            r#"└──  ────  ──┘"#,
        ];
        assert(r@.map_values(|l: &str| l@) =~= seq![
            r#"┌──  ────  ──┐"#@,
            r#"│2           │"#@,
            r#"│            │"#@,
            r#"│   |\       │"#@,
            r#"│    \\      │"#@,
            r#"│    _\\_    │"#@,
            r#"│      \     │"#@,
            r#"│           2│"#@,
            r#"└──  ────  ──┘"#@,
        ]);
        r
    } else {
        let r = vec![
            r#"┌──  ────  ──┐"#,
            r#"│1           │"#,
            r#"│            │"#,
            r#"│   |\       │"#,
            r#"│    \\      │"#,
            r#"│    _\\_    │"#,
            r#"│      \     │"#,
            r#"│           1│"#,
            r#"└──  ────  ──┘"#,
        ];
        assert(r@.map_values(|l: &str| l@) =~= seq![
            r#"┌──  ────  ──┐"#@,
            r#"│1           │"#@,
            r#"│            │"#@,
            r#"│   |\       │"#@,
            r#"│    \\      │"#@,
            r#"│    _\\_    │"#@,
            r#"│      \     │"#@,
            r#"│           1│"#@,
            r#"└──  ────  ──┘"#@,
        ]);
        r
    }
}

fn front_club(value: u8) -> (r: Vec<&'static str>)
    ensures
        r@.map_values(|l: &str| l@) == club_art(value),
{
    if value == 12 {
        let r = vec![
            r#"┌─  ──  ──  ─┐"#,
            r#"│12  /^^^┼^\ │"#,
            r#"│.-.(  ° ͜ʖ° )│"#,
            r#"│(  )\     / │"#,
            r#"│ ( )/---⊙-\ │"#,
            r#"│  ()   .๏. \│"#,
            r#"│  /    .๏.  │"#,
            r#"│ /     .๏.12│"#,
            r#"└─  ──  ──  ─┘"#,
        ];
        assert(r@.map_values(|l: &str| l@) =~= seq![
            r#"┌─  ──  ──  ─┐"#@,
            r#"│12  /^^^┼^\ │"#@,
            r#"│.-.(  ° ͜ʖ° )│"#@,
            r#"│(  )\     / │"#@,
            r#"│ ( )/---⊙-\ │"#@,
            r#"│  ()   .๏. \│"#@,
            r#"│  /    .๏.  │"#@,
            r#"│ /     .๏.12│"#@,
            r#"└─  ──  ──  ─┘"#@,
        ]);
        r
    } else if value == 11 {
        let r = vec![
            r#"┌─  ──  ──  ─┐"#,
            r#"│11    ┌──@─┐│"#,
            r#"│.-.   (° ͜ʖ°)│"#,
            r#"│(  )  /    \│"#,
            r#"│ ( ) Λ  Λ   │"#,
            r#"│  ()(⊙  ⊙)\~│"#,
            r#"│     )  (  \│"#,
            r#"│     (..) 11│"#,
            r#"└─  ──  ──  ─┘"#,
        ];
        assert(r@.map_values(|l: &str| l@) =~= seq![
            r#"┌─  ──  ──  ─┐"#@,
            r#"│11    ┌──@─┐│"#@,
            r#"│.-.   (° ͜ʖ°)│"#@,
            r#"│(  )  /    \│"#@,
            r#"│ ( ) Λ  Λ   │"#@,
            r#"│  ()(⊙  ⊙)\~│"#@,
            r#"│     )  (  \│"#@,
            r#"│     (..) 11│"#@,
            r#"└─  ──  ──  ─┘"#@,
        ]);
        r
    } else if value == 10 {
        let r = vec![
            r#"┌─  ──  ──  ─┐"#,
            r#"│10   ┌───@┐ │"#,
            r#"│.-.  │____│ │"#,
            r#"│(  ) (° ͜ʖ°) │"#,
            r#"│ ( ) /    \ │"#,
            r#"│  ฿)/\    / │"#,
            r#"│      \  /฿ │"#,
            r#"│       || 10│"#,
            r#"└─  ──  ──  ─┘"#,
        ];
        assert(r@.map_values(|l: &str| l@) =~= seq![
            r#"┌─  ──  ──  ─┐"#@,
            r#"│10   ┌───@┐ │"#@,
            r#"│.-.  │____│ │"#@,
            r#"│(  ) (° ͜ʖ°) │"#@,
            r#"│ ( ) /    \ │"#@,
            r#"│  ฿)/\    / │"#@,
            r#"│      \  /฿ │"#@,
            r#"│       || 10│"#@,
            r#"└─  ──  ──  ─┘"#@,
        ]);
        r
    } else if value == 9 {
        let r = vec![
            r#"┌─  ──  ──  ─┐"#,
            r#"│9           │"#,
            r#"│            │"#,
            r#"│    .-.     │"#,
            r#"│    (  )    │"#,
            r#"│     ( )    │"#,
            r#"│      ()    │"#,
            r#"│           9│"#,
            r#"└─  ──  ──  ─┘"#,
        ];
        assert(r@.map_values(|l: &str| l@) =~= seq![
            r#"┌─  ──  ──  ─┐"#@,
            r#"│9           │"#@,
            r#"│            │"#@,
            r#"│    .-.     │"#@,
            r#"│    (  )    │"#@,
            r#"│     ( )    │"#@,
            r#"│      ()    │"#@,
            r#"│           9│"#@,
            r#"└─  ──  ──  ─┘"#@,
        ]);
        r
    } else if value == 8 {
        let r = vec![
            r#"┌─  ──  ──  ─┐"#,
            r#"│8           │"#,
            r#"│            │"#,
            r#"│    .-.     │"#,
            r#"│    (  )    │"#,
            r#"│     ( )    │"#,
            r#"│      ()    │"#,
            r#"│           8│"#,
            r#"└─  ──  ──  ─┘"#,
        ];
        assert(r@.map_values(|l: &str| l@) =~= seq![
            r#"┌─  ──  ──  ─┐"#@,
            r#"│8           │"#@,
            r#"│            │"#@,
            r#"│    .-.     │"#@,
            r#"│    (  )    │"#@,
            r#"│     ( )    │"#@,
            r#"│      ()    │"#@,
            r#"│           8│"#@,
            r#"└─  ──  ──  ─┘"#@,
        ]);
        r
    } else if value == 7 {
        let r = vec![
            r#"┌─  ──  ──  ─┐"#,
            r#"│7           │"#,
            r#"│            │"#,
            r#"│    .-.     │"#,
            r#"│    (  )    │"#,
            r#"│     ( )    │"#,
            r#"│      ()    │"#,
            r#"│           7│"#,
            r#"└─  ──  ──  ─┘"#,
        ];
        assert(r@.map_values(|l: &str| l@) =~= seq![
            r#"┌─  ──  ──  ─┐"#@,
            r#"│7           │"#@,
            r#"│            │"#@,
            r#"│    .-.     │"#@,
            r#"│    (  )    │"#@,
            r#"│     ( )    │"#@,
            r#"│      ()    │"#@,
            r#"│           7│"#@,
            r#"└─  ──  ──  ─┘"#@,
        ]);
        r
    } else if value == 6 {
        let r = vec![
            r#"┌─  ──  ──  ─┐"#,
            r#"│6           │"#,
            r#"│            │"#,
            r#"│    .-.     │"#,
            r#"│    (  )    │"#,
            r#"│     ( )    │"#,
            r#"│      ()    │"#,
            r#"│           6│"#,
            r#"└─  ──  ──  ─┘"#,
        ];
        assert(r@.map_values(|l: &str| l@) =~= seq![
            r#"┌─  ──  ──  ─┐"#@,
            r#"│6           │"#@,
            r#"│            │"#@,
            r#"│    .-.     │"#@,
            r#"│    (  )    │"#@,
            r#"│     ( )    │"#@,
            r#"│      ()    │"#@,
            r#"│           6│"#@,
            r#"└─  ──  ──  ─┘"#@,
        ]);
        r
    } else if value == 5 {
        let r = vec![
            r#"┌─  ──  ──  ─┐"#,
            r#"│5           │"#,
            r#"│            │"#,
            r#"│    .-.     │"#,
            r#"│    (  )    │"#,
            r#"│     ( )    │"#,
            r#"│      ()    │"#,
            r#"│           5│"#,
            r#"└─  ──  ──  ─┘"#,
        ];
        assert(r@.map_values(|l: &str| l@) =~= seq![
            r#"┌─  ──  ──  ─┐"#@,
            r#"│5           │"#@,
            r#"│            │"#@,
            r#"│    .-.     │"#@,
            r#"│    (  )    │"#@,
            r#"│     ( )    │"#@,
            r#"│      ()    │"#@,
            r#"│           5│"#@,
            r#"└─  ──  ──  ─┘"#@,
        ]);
        r
    } else if value == 4 {
        let r = vec![
            r#"┌─  ──  ──  ─┐"#,
            r#"│4           │"#,
            r#"│            │"#,
            r#"│    .-.     │"#,
            r#"│    (  )    │"#,
            r#"│     ( )    │"#,
            r#"│      ()    │"#,
            r#"│           4│"#,
            r#"└─  ──  ──  ─┘"#,
        ];
        assert(r@.map_values(|l: &str| l@) =~= seq![
            r#"┌─  ──  ──  ─┐"#@,
            r#"│4           │"#@,
            r#"│            │"#@,
            r#"│    .-.     │"#@,
            r#"│    (  )    │"#@,
            r#"│     ( )    │"#@,
            r#"│      ()    │"#@,
            r#"│           4│"#@,
            r#"└─  ──  ──  ─┘"#@,
        ]);
        r
    } else if value == 3 {
        let r = vec![
            r#"┌─  ──  ──  ─┐"#,
            r#"│3           │"#,
            r#"│            │"#,
            r#"│    .-.     │"#,
            r#"│    (  )    │"#,
            r#"│     ( )    │"#,
            r#"│      ()    │"#,
            r#"│           3│"#,
            r#"└─  ──  ──  ─┘"#,
        ];
        assert(r@.map_values(|l: &str| l@) =~= seq![
            r#"┌─  ──  ──  ─┐"#@,
            r#"│3           │"#@,
            r#"│            │"#@,
            r#"│    .-.     │"#@,
            r#"│    (  )    │"#@,
            r#"│     ( )    │"#@,
            r#"│      ()    │"#@,
            r#"│           3│"#@,
            r#"└─  ──  ──  ─┘"#@,
        ]);
        r
    } else if value == 2 {
        let r = vec![
            r#"┌─  ──  ──  ─┐"#,
            r#"│2           │"#,
            r#"│            │"#,
            r#"│    .-.     │"#,
            r#"│    (  )    │"#,
            r#"│     ( )    │"#,
            r#"│      ()    │"#,
            r#"│           2│"#,
            r#"└─  ──  ──  ─┘"#,
        ];
        assert(r@.map_values(|l: &str| l@) =~= seq![
            r#"┌─  ──  ──  ─┐"#@,
            r#"│2           │"#@,
            r#"│            │"#@,
            r#"│    .-.     │"#@,
            r#"│    (  )    │"#@,
            r#"│     ( )    │"#@,
            r#"│      ()    │"#@,
            r#"│           2│"#@,
            r#"└─  ──  ──  ─┘"#@,
        ]);
        r
    } else {
        let r = vec![
            r#"┌─  ──  ──  ─┐"#,
            r#"│1           │"#,
            r#"│            │"#,
            r#"│    .-.     │"#,
            r#"│    (  )    │"#,
            r#"│     ( )    │"#,
            r#"│      ()    │"#,
            r#"│           1│"#,
            r#"└─  ──  ──  ─┘"#,
        ];
        assert(r@.map_values(|l: &str| l@) =~= seq![
            r#"┌─  ──  ──  ─┐"#@,
            r#"│1           │"#@,
            r#"│            │"#@,
            r#"│    .-.     │"#@,
            r#"│    (  )    │"#@,
            r#"│     ( )    │"#@,
            r#"│      ()    │"#@,
            r#"│           1│"#@,
            r#"└─  ──  ──  ─┘"#@,
        ]);
        r
    }
}

fn front_gold(value: u8) -> (r: Vec<&'static str>)
    ensures
        r@.map_values(|l: &str| l@) == gold_art(value),
{
    if value == 12 {
        let r = vec![
            r#"┌────────────┐"#,
            r#"│12  /^^^┼^\ │"#,
            r#"│   (  ° ͜ʖ° )│"#,
            r#"│ .-.\     / │"#,
            r#"│( O )---⊙-\ │"#,
            r#"│ `฿`   .๏. \│"#,
            r#"│  /    .๏.  │"#,
            r#"│ /     .๏.12│"#,
            r#"└────────────┘"#,
        ];
        assert(r@.map_values(|l: &str| l@) =~= seq![
            r#"┌────────────┐"#@,
            r#"│12  /^^^┼^\ │"#@,
            r#"│   (  ° ͜ʖ° )│"#@,
            r#"│ .-.\     / │"#@,
            r#"│( O )---⊙-\ │"#@,
            r#"│ `฿`   .๏. \│"#@,
            r#"│  /    .๏.  │"#@,
            r#"│ /     .๏.12│"#@,
            r#"└────────────┘"#@,
        ]);
        r
    } else if value == 11 {
        let r = vec![
            r#"┌────────────┐"#,
            r#"│11    ┌──@─┐│"#,
            r#"│ .-.  (° ͜ʖ°)│"#,
            r#"│( O ) /    \│"#,
            r#"│ `-฿ Λ  Λ   │"#,
            r#"│    (⊙  ⊙)\~│"#,
            r#"│     )  (  \│"#,
            r#"│     (..) 11│"#,
            r#"└────────────┘"#,
        ];
        assert(r@.map_values(|l: &str| l@) =~= seq![
            r#"┌────────────┐"#@,
            r#"│11    ┌──@─┐│"#@,
            r#"│ .-.  (° ͜ʖ°)│"#@,
            r#"│( O ) /    \│"#@,
            r#"│ `-฿ Λ  Λ   │"#@,
            r#"│    (⊙  ⊙)\~│"#@,
            r#"│     )  (  \│"#@,
            r#"│     (..) 11│"#@,
            r#"└────────────┘"#@,
        ]);
        r
    } else if value == 10 {
        let r = vec![
            r#"┌────────────┐"#,
            r#"│10   ┌───@┐ │"#,
            r#"│     │____│ │"#,
            r#"│ .-. (° ͜ʖ°) │"#,
            r#"│( O )/    \ │"#,
            r#"│ `฿` \    / │"#,
            r#"│      \  /฿ │"#,
            r#"│       || 10│"#,
            r#"└────────────┘"#,
        ];
        assert(r@.map_values(|l: &str| l@) =~= seq![
            r#"┌────────────┐"#@,
            r#"│10   ┌───@┐ │"#@,
            r#"│     │____│ │"#@,
            r#"│ .-. (° ͜ʖ°) │"#@,
            r#"│( O )/    \ │"#@,
            r#"│ `฿` \    / │"#@,
            r#"│      \  /฿ │"#@,
            r#"│       || 10│"#@,
            r#"└────────────┘"#@,
        ]);
        r
    } else if value == 9 {
        let r = vec![
            r#"┌────────────┐"#,
            r#"│9           │"#,
            r#"│            │"#,
            r#"│    .-.     │"#,
            r#"│   ( O )    │"#,
            r#"│    `-`     │"#,
            r#"│            │"#,
            r#"│           9│"#,
            r#"└────────────┘"#,
        ];
        assert(r@.map_values(|l: &str| l@) =~= seq![
            r#"┌────────────┐"#@,
            r#"│9           │"#@,
            r#"│            │"#@,
            r#"│    .-.     │"#@,
            r#"│   ( O )    │"#@,
            r#"│    `-`     │"#@,
            r#"│            │"#@,
            r#"│           9│"#@,
            r#"└────────────┘"#@,
        ]);
        r
    } else if value == 8 {
        let r = vec![
            r#"┌────────────┐"#,
            r#"│8           │"#,
            r#"│            │"#,
            r#"│    .-.     │"#,
            r#"│   ( O )    │"#,
            r#"│    `-`     │"#,
            r#"│            │"#,
            r#"│           8│"#,
            r#"└────────────┘"#,
        ];
        assert(r@.map_values(|l: &str| l@) =~= seq![
            r#"┌────────────┐"#@,
            r#"│8           │"#@,
            r#"│            │"#@,
            r#"│    .-.     │"#@,
            r#"│   ( O )    │"#@,
            r#"│    `-`     │"#@,
            r#"│            │"#@,
            r#"│           8│"#@,
            r#"└────────────┘"#@,
        ]);
        r
    } else if value == 7 {
        let r = vec![
            r#"┌────────────┐"#,
            r#"│7           │"#,
            r#"│            │"#,
            r#"│    .-.     │"#,
            r#"│   ( O )    │"#,
            r#"│    `-`     │"#,
            r#"│            │"#,
            r#"│           7│"#,
            r#"└────────────┘"#,
        ];
        assert(r@.map_values(|l: &str| l@) =~= seq![
            r#"┌────────────┐"#@,
            r#"│7           │"#@,
            r#"│            │"#@,
            r#"│    .-.     │"#@,
            r#"│   ( O )    │"#@,
            r#"│    `-`     │"#@,
            r#"│            │"#@,
            r#"│           7│"#@,
            r#"└────────────┘"#@,
        ]);
        r
    } else if value == 6 {
        let r = vec![
            r#"┌────────────┐"#,
            r#"│6           │"#,
            r#"│            │"#,
            r#"│    .-.     │"#,
            r#"│   ( O )    │"#,
            r#"│    `-`     │"#,
            r#"│            │"#,
            r#"│           6│"#,
            r#"└────────────┘"#,
        ];
        assert(r@.map_values(|l: &str| l@) =~= seq![
            r#"┌────────────┐"#@,
            r#"│6           │"#@,
            r#"│            │"#@,
            r#"│    .-.     │"#@,
            r#"│   ( O )    │"#@,
            r#"│    `-`     │"#@,
            r#"│            │"#@,
            r#"│           6│"#@,
            r#"└────────────┘"#@,
        ]);
        r
    } else if value == 5 {
        let r = vec![
            r#"┌────────────┐"#,
            r#"│5           │"#,
            r#"│            │"#,
            r#"│    .-.     │"#,
            r#"│   ( O )    │"#,
            r#"│    `-`     │"#,
            r#"│            │"#,
            r#"│           5│"#,
            r#"└────────────┘"#,
        ];
        assert(r@.map_values(|l: &str| l@) =~= seq![
            r#"┌────────────┐"#@,
            r#"│5           │"#@,
            r#"│            │"#@,
            r#"│    .-.     │"#@,
            r#"│   ( O )    │"#@,
            r#"│    `-`     │"#@,
            r#"│            │"#@,
            r#"│           5│"#@,
            r#"└────────────┘"#@,
        ]);
        r
    } else if value == 4 {
        let r = vec![
            r#"┌────────────┐"#,
            r#"│4           │"#,
            r#"│            │"#,
            r#"│    .-.     │"#,
            r#"│   ( O )    │"#,
            r#"│    `-`     │"#,
            r#"│            │"#,
            r#"│           4│"#,
            r#"└────────────┘"#,
        ];
        assert(r@.map_values(|l: &str| l@) =~= seq![
            r#"┌────────────┐"#@,
            r#"│4           │"#@,
            r#"│            │"#@,
            r#"│    .-.     │"#@,
            r#"│   ( O )    │"#@,
            r#"│    `-`     │"#@,
            r#"│            │"#@,
            r#"│           4│"#@,
            r#"└────────────┘"#@,
        ]);
        r
    } else if value == 3 {
        let r = vec![
            r#"┌────────────┐"#,
            r#"│3           │"#,
            r#"│            │"#,
            r#"│    .-.     │"#,
            r#"│   ( O )    │"#,
            r#"│    `-`     │"#,
            r#"│            │"#,
            r#"│           3│"#,
            r#"└────────────┘"#,
        ];
        assert(r@.map_values(|l: &str| l@) =~= seq![
            r#"┌────────────┐"#@,
            r#"│3           │"#@,
            r#"│            │"#@,
            r#"│    .-.     │"#@,
            r#"│   ( O )    │"#@,
            r#"│    `-`     │"#@,
            r#"│            │"#@,
            r#"│           3│"#@,
            r#"└────────────┘"#@,
        ]);
        r
    } else if value == 2 {
        let r = vec![
            r#"┌────────────┐"#,
            r#"│2           │"#,
            r#"│            │"#,
            r#"│    .-.     │"#,
            r#"│   ( O )    │"#,
            r#"│    `-`     │"#,
            r#"│            │"#,
            r#"│           2│"#,
            r#"└────────────┘"#,
        ];
        assert(r@.map_values(|l: &str| l@) =~= seq![
            r#"┌────────────┐"#@,
            r#"│2           │"#@,
            r#"│            │"#@,
            r#"│    .-.     │"#@,
            r#"│   ( O )    │"#@,
            r#"│    `-`     │"#@,
            r#"│            │"#@,
            r#"│           2│"#@,
            r#"└────────────┘"#@,
        ]);
        r
    } else {
        let r = vec![
            r#"┌────────────┐"#,
            r#"│1           │"#,
            r#"│            │"#,
            r#"│    .-.     │"#,
            r#"│   ( O )    │"#,
            r#"│    `-`     │"#,
            r#"│            │"#,
            r#"│           1│"#,
            r#"└────────────┘"#,
        ];
        assert(r@.map_values(|l: &str| l@) =~= seq![
            r#"┌────────────┐"#@,
            r#"│1           │"#@,
            r#"│            │"#@,
            r#"│    .-.     │"#@,
            r#"│   ( O )    │"#@,
            r#"│    `-`     │"#@,
            r#"│            │"#@,
            r#"│           1│"#@,
            r#"└────────────┘"#@,
        ]);
        r
    }
}

fn front_cup(value: u8) -> (r: Vec<&'static str>)
    ensures
        r@.map_values(|l: &str| l@) == cup_art(value),
{
    if value == 12 {
        let r = vec![
            r#"┌────    ────┐"#,
            r#"│12  /^^^┼^\ │"#,
            r#"│   (  ° ͜ʖ° )│"#,
            r#"│ ___\     / │"#,
            r#"│(___)---⊙-\ │"#,
            r#"│ ฿_/   .๏. \│"#,
            r#"│  /    .๏.  │"#,
            r#"│ /     .๏.12│"#,
            r#"└────    ────┘"#,
        ];
        assert(r@.map_values(|l: &str| l@) =~= seq![
            r#"┌────    ────┐"#@,
            r#"│12  /^^^┼^\ │"#@,
            r#"│   (  ° ͜ʖ° )│"#@,
            r#"│ ___\     / │"#@,
            r#"│(___)---⊙-\ │"#@,
            r#"│ ฿_/   .๏. \│"#@,
            r#"│  /    .๏.  │"#@,
            r#"│ /     .๏.12│"#@,
            r#"└────    ────┘"#@,
        ]);
        r
    } else if value == 11 {
        let r = vec![
            r#"┌────    ────┐"#,
            r#"│11    ┌──@─┐│"#,
            r#"│ ___  (° ͜ʖ°)│"#,
            r#"│(___) /    \│"#,
            r#"│ \_฿ Λ  Λ   │"#,
            r#"│    (⊙  ⊙)\~│"#,
            r#"│     )  (  \│"#,
            r#"│     (..) 11│"#,
            r#"└────    ────┘"#,
        ];
        assert(r@.map_values(|l: &str| l@) =~= seq![
            r#"┌────    ────┐"#@,
            r#"│11    ┌──@─┐│"#@,
            r#"│ ___  (° ͜ʖ°)│"#@,
            r#"│(___) /    \│"#@,
            r#"│ \_฿ Λ  Λ   │"#@,
            r#"│    (⊙  ⊙)\~│"#@,
            r#"│     )  (  \│"#@,
            r#"│     (..) 11│"#@,
            r#"└────    ────┘"#@,
        ]);
        r
    } else if value == 10 {
        let r = vec![
            r#"┌────    ────┐"#,
            r#"│10   ┌───@┐ │"#,
            r#"│     │____│ │"#,
            r#"│ ___ (° ͜ʖ°) │"#,
            r#"│(___)/    \ │"#,
            r#"│ \_฿ \    / │"#,
            r#"│      \  /฿ │"#,
            r#"│       || 10│"#,
            r#"└────    ────┘"#,
        ];
        assert(r@.map_values(|l: &str| l@) =~= seq![
            r#"┌────    ────┐"#@,
            r#"│10   ┌───@┐ │"#@,
            r#"│     │____│ │"#@,
            r#"│ ___ (° ͜ʖ°) │"#@,
            r#"│(___)/    \ │"#@,
            r#"│ \_฿ \    / │"#@,
            r#"│      \  /฿ │"#@,
            r#"│       || 10│"#@,
            r#"└────    ────┘"#@,
        ]);
        r
    } else if value == 9 {
        let r = vec![
            r#"┌────    ────┐"#,
            r#"│9           │"#,
            r#"│            │"#,
            r#"│    ___     │"#,
            r#"│   (___)    │"#,
            r#"│    \_/     │"#,
            r#"│            │"#,
            r#"│           9│"#,
            r#"└────    ────┘"#,
        ];
        assert(r@.map_values(|l: &str| l@) =~= seq![
            r#"┌────    ────┐"#@,
            r#"│9           │"#@,
            r#"│            │"#@,
            r#"│    ___     │"#@,
            r#"│   (___)    │"#@,
            r#"│    \_/     │"#@,
            r#"│            │"#@,
            r#"│           9│"#@,
            r#"└────    ────┘"#@,
        ]);
        r
    } else if value == 8 {
        let r = vec![
            r#"┌────    ────┐"#,
            r#"│8           │"#,
            r#"│            │"#,
            r#"│    ___     │"#,
            r#"│   (___)    │"#,
            r#"│    \_/     │"#,
            r#"│            │"#,
            r#"│           8│"#,
            r#"└────    ────┘"#,
        ];
        assert(r@.map_values(|l: &str| l@) =~= seq![
            r#"┌────    ────┐"#@,
            r#"│8           │"#@,
            r#"│            │"#@,
            r#"│    ___     │"#@,
            r#"│   (___)    │"#@,
            r#"│    \_/     │"#@,
            r#"│            │"#@,
            r#"│           8│"#@,
            r#"└────    ────┘"#@,
        ]);
        r
    } else if value == 7 {
        let r = vec![
            r#"┌────    ────┐"#,
            r#"│7           │"#,
            r#"│            │"#,
            r#"│    ___     │"#,
            r#"│   (___)    │"#,
            r#"│    \_/     │"#,
            r#"│            │"#,
            r#"│           7│"#,
            r#"└────    ────┘"#,
        ];
        assert(r@.map_values(|l: &str| l@) =~= seq![
            r#"┌────    ────┐"#@,
            r#"│7           │"#@,
            r#"│            │"#@,
            r#"│    ___     │"#@,
            r#"│   (___)    │"#@,
            r#"│    \_/     │"#@,
            r#"│            │"#@,
            r#"│           7│"#@,
            r#"└────    ────┘"#@,
        ]);
        r
    } else if value == 6 {
        let r = vec![
            r#"┌────    ────┐"#,
            r#"│6           │"#,
            r#"│            │"#,
            r#"│    ___     │"#,
            r#"│   (___)    │"#,
            r#"│    \_/     │"#,
            r#"│            │"#,
            r#"│           6│"#,
            r#"└────    ────┘"#,
        ];
        assert(r@.map_values(|l: &str| l@) =~= seq![
            r#"┌────    ────┐"#@,
            r#"│6           │"#@,
            r#"│            │"#@,
            r#"│    ___     │"#@,
            r#"│   (___)    │"#@,
            r#"│    \_/     │"#@,
            r#"│            │"#@,
            r#"│           6│"#@,
            r#"└────    ────┘"#@,
        ]);
        r
    } else if value == 5 {
        let r = vec![
            r#"┌────    ────┐"#,
            r#"│5           │"#,
            r#"│            │"#,
            r#"│    ___     │"#,
            r#"│   (___)    │"#,
            r#"│    \_/     │"#,
            r#"│            │"#,
            r#"│           5│"#,
            r#"└────    ────┘"#,
        ];
        assert(r@.map_values(|l: &str| l@) =~= seq![
            r#"┌────    ────┐"#@,
            r#"│5           │"#@,
            r#"│            │"#@,
            r#"│    ___     │"#@,
            r#"│   (___)    │"#@,
            r#"│    \_/     │"#@,
            r#"│            │"#@,
            r#"│           5│"#@,
            r#"└────    ────┘"#@,
        ]);
        r
    } else if value == 4 {
        let r = vec![
            r#"┌────    ────┐"#,
            r#"│4           │"#,
            r#"│            │"#,
            r#"│    ___     │"#,
            r#"│   (___)    │"#,
            r#"│    \_/     │"#,
            r#"│            │"#,
            r#"│           4│"#,
            r#"└────    ────┘"#,
        ];
        assert(r@.map_values(|l: &str| l@) =~= seq![
            r#"┌────    ────┐"#@,
            r#"│4           │"#@,
            r#"│            │"#@,
            r#"│    ___     │"#@,
            r#"│   (___)    │"#@,
            r#"│    \_/     │"#@,
            r#"│            │"#@,
            r#"│           4│"#@,
            r#"└────    ────┘"#@,
        ]);
        r
    } else if value == 3 {
        let r = vec![
            r#"┌────    ────┐"#,
            r#"│3           │"#,
            r#"│            │"#,
            r#"│    ___     │"#,
            r#"│   (___)    │"#,
            r#"│    \_/     │"#,
            r#"│            │"#,
            r#"│           3│"#,
            r#"└────    ────┘"#,
        ];
        assert(r@.map_values(|l: &str| l@) =~= seq![
            r#"┌────    ────┐"#@,
            r#"│3           │"#@,
            r#"│            │"#@,
            r#"│    ___     │"#@,
            r#"│   (___)    │"#@,
            r#"│    \_/     │"#@,
            r#"│            │"#@,
            r#"│           3│"#@,
            r#"└────    ────┘"#@,
        ]);
        r
    } else if value == 2 {
        let r = vec![
            r#"┌────    ────┐"#,
            r#"│2           │"#,
            r#"│            │"#,
            r#"│    ___     │"#,
            r#"│   (___)    │"#,
            r#"│    \_/     │"#,
            r#"│            │"#,
            r#"│           2│"#,
            r#"└────    ────┘"#,
        ];
        assert(r@.map_values(|l: &str| l@) =~= seq![
            r#"┌────    ────┐"#@,
            r#"│2           │"#@,
            r#"│            │"#@,
            r#"│    ___     │"#@,
            r#"│   (___)    │"#@,
            r#"│    \_/     │"#@,
            r#"│            │"#@,
            r#"│           2│"#@,
            r#"└────    ────┘"#@,
        ]);
        r
    } else {
        let r = vec![
            r#"┌────    ────┐"#,
            r#"│1           │"#,
            r#"│            │"#,
            r#"│    ___     │"#,
            r#"│   (___)    │"#,
            r#"│    \_/     │"#,
            r#"│            │"#,
            r#"│           1│"#,
            r#"└────    ────┘"#,
        ];
        assert(r@.map_values(|l: &str| l@) =~= seq![
            r#"┌────    ────┐"#@,
            r#"│1           │"#@,
            r#"│            │"#@,
            r#"│    ___     │"#@,
            r#"│   (___)    │"#@,
            r#"│    \_/     │"#@,
            r#"│            │"#@,
            r#"│           1│"#@,
            r#"└────    ────┘"#@,
        ]);
        r
    }
}

/// Whether the card has a picture: a joker of value 0, or a suit card from 1 to 12.
pub fn has_picture(card: &Card) -> (r: bool)
    ensures
        r == is_deck_card(*card),
{
    match card._type {
        CardType::Joker => card.value == 0,
        _ => 1 <= card.value && card.value <= 12,
    }
}

/// The picture of a card, line by line.
pub fn card_front(card: Card) -> (r: Vec<&'static str>)
    requires
        is_deck_card(card),
    ensures
        r@.map_values(|l: &str| l@) == card_art(card),
{
    match card._type {
        CardType::Joker => front_joker(),
        CardType::Sword => front_sword(card.value),
        CardType::Club => front_club(card.value),
        CardType::Gold => front_gold(card.value),
        CardType::Cup => front_cup(card.value),
    }
}

/// The lines of a picture joined into one text.
pub fn draw_card(card_visual: &Vec<&'static str>) -> (r: String)
    ensures
        r@ == lines_text(card_visual@.map_values(|l: &str| l@)),
{
    let mut res = String::new();
    let mut i: usize = 0;
    while i < card_visual.len()
        invariant
            i <= card_visual@.len(),
            res@ == lines_text(card_visual@.subrange(0, i as int).map_values(|l: &str| l@)),
        decreases card_visual@.len() - i,
    {
        res.append(card_visual[i]);
        res.append("\n");
        proof {
            reveal_strlit("\n");
            let next = card_visual@.subrange(0, i as int + 1).map_values(|l: &str| l@);
            assert(next.drop_last() =~= card_visual@.subrange(0, i as int).map_values(|l: &str| l@));
        }
        i = i + 1;
    }
    assert(card_visual@.subrange(0, card_visual@.len() as int) =~= card_visual@);
    res
}

/// The card with the given id in the reference deck.
pub fn card_of_id(id: u8) -> (r: Card)
    requires
        (id as int) < DECK_LEN,
    ensures
        r == reference_card(id as int),
        is_deck_card(r),
{
    let k = id as usize;
    let s = k / SUIT_LEN;
    let kind = if s == 0 {
        CardType::Sword
    } else if s == 1 {
        CardType::Club
    } else if s == 2 {
        CardType::Gold
    } else {
        CardType::Cup
    };
    Card { _type: kind, value: (SUIT_LEN - k % SUIT_LEN) as u8 }
}

fn get_visual_card_from_vec_cards(hand: &Vec<Card>, index: usize) -> (r: String)
    requires
        index < hand@.len(),
        is_deck_card(hand@[index as int]),
    ensures
        r@ == card_text(hand@[index as int]),
{
    draw_card(&card_front(hand[index]))
}

fn get_visual_card_from_stack(hand: &CardStack, index: usize) -> (r: String)
    requires
        index < hand@.len(),
        (hand@[index as int] as int) < DECK_LEN,
    ensures
        r@ == card_text(reference_card(hand@[index as int] as int)),
{
    draw_card(&card_front(card_of_id(hand.card_ids[index])))
}

fn get_visual_card_from_array(hand: &[Card; 4], index: usize) -> (r: String)
    requires
        index < 4,
        is_deck_card(hand@[index as int]),
    ensures
        r@ == card_text(hand@[index as int]),
{
    draw_card(&card_front(hand[index]))
}

fn draw_hand(a: String, b: String, c: String, d: String) -> (r: Vec<Vec<String>>)
    ensures
        r@.len() == 2,
        r@[0]@ == seq![a, b],
        r@[1]@ == seq![c, d],
{
    let top = vec![a, b];
    let bottom = vec![c, d];
    vec![top, bottom]
}

/// The first four cards of `hand`, two to a row.
pub fn draw_hand_from_vec_cards(hand: &Vec<Card>) -> (r: Vec<Vec<String>>)
    requires
        hand@.len() >= 4,
        forall|i: int| 0 <= i < 4 ==> is_deck_card(#[trigger] hand@[i]),
    ensures
        shows_hand(r@, hand@),
{
    draw_hand(
        get_visual_card_from_vec_cards(hand, 0),
        get_visual_card_from_vec_cards(hand, 1),
        get_visual_card_from_vec_cards(hand, 2),
        get_visual_card_from_vec_cards(hand, 3),
    )
}

/// The cards of the first four ids of the stack, two to a row.
pub fn draw_hand_from_stack(hand: &CardStack) -> (r: Vec<Vec<String>>)
    requires
        hand@.len() >= 4,
        forall|i: int| 0 <= i < 4 ==> (#[trigger] hand@[i] as int) < DECK_LEN,
    ensures
        shows_hand(r@, hand@.map_values(|id: u8| reference_card(id as int))),
{
    draw_hand(
        get_visual_card_from_stack(hand, 0),
        get_visual_card_from_stack(hand, 1),
        get_visual_card_from_stack(hand, 2),
        get_visual_card_from_stack(hand, 3),
    )
}

/// The four cards of a hand, two to a row.
pub fn draw_hand_from_array(hand: &[Card; 4]) -> (r: Vec<Vec<String>>)
    requires
        forall|i: int| 0 <= i < 4 ==> is_deck_card(#[trigger] hand@[i]),
    ensures
        shows_hand(r@, hand@),
{
    draw_hand(
        get_visual_card_from_array(hand, 0),
        get_visual_card_from_array(hand, 1),
        get_visual_card_from_array(hand, 2),
        get_visual_card_from_array(hand, 3),
    )
}

impl Game24 {
    /// The first four cards on the table, two to a row.
    pub fn draw_cards_as_string(&self) -> (r: Vec<Vec<String>>)
        requires
            self.wf(),
            self.hand().len() >= 4,
        ensures
            shows_hand(r@, self.hand()),
    {
        proof {
            self.lemma_visible_ids();
            assert forall|i: int| 0 <= i < 4 implies is_deck_card(#[trigger] self.hand()[i]) by {
                let id = self.visible()[i] as int;
                assert(id < DECK_LEN);
                assert(self.hand()[i] == reference_card(id));
            }
        }
        draw_hand_from_vec_cards(&self.get_gived_cards())
    }
}

} // verus!
