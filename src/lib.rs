//! A LAN chat session with a shared turn-based arithmetic card game.
//!
//! `cards` and `game` hold the 24-game: a deck of card ids shared among
//! stacks, and the turn engine over it. `directory` maps peers to names,
//! `messages` lists what peers exchange, `input` edits the line being typed,
//! `commands` reads typed lines,
//! `transfer` sends files in chunks, and `session` ties them together as
//! the one place where session state changes. `server` answers the
//! players of a table, `terminal` draws cards, and `text` writes numbers.
pub mod cards;
pub mod commands;
pub mod directory;
pub mod game;
pub mod input;
pub mod messages;
pub mod server;
pub mod session;
pub mod terminal;
pub mod text;
pub mod transfer;
