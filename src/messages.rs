//! The messages that peers exchange, and those of the table server.
use crate::cards::Card;
use crate::directory::EndpointId;
use vstd::prelude::*;

verus! {

/// Number of characters in a fixed-size answer.
pub const BYTECOUNT: usize = 32;

/// An answer as a fixed array of characters.
pub type AnswerData = [char; 32];

/// Number of cards in a dealt hand.
pub const CARDCOUNT: usize = 4;

/// The four cards of a dealt hand.
pub type HandCardData = [Card; 4];

/// One piece of a file on its way to a peer.
#[derive(Debug, Clone, PartialEq, Eq)]
pub enum Chunk {
    Data(Vec<u8>),
    Error,
    End,
}

/// A pixel of a video frame.
#[derive(Debug, Clone, Copy, PartialEq, Eq, Structural)]
pub struct Pixel {
    pub r: u8,
    pub g: u8,
    pub b: u8,
}

/// A message between peers.
#[derive(Debug, Clone, PartialEq, Eq)]
pub enum NetMessage {
    /// Discovery: the sender's name and the port it listens on.
    HelloLan(String, u16),
    /// The reply to a discovery message: the sender's name.
    HelloUser(String),
    /// A line of chat.
    UserMessage(String),
    /// A piece of the named file.
    UserData(String, Chunk),
    /// A video frame (data, width, height), or `None` when the stream ends.
    Stream(Option<(Vec<Pixel>, usize, usize)>),
    /// An answer to the current hand.
    CardasciiAnswer(String),
    /// The hand of a new turn.
    CardasciiNewTurn(HandCardData),
    /// The sender passes this turn.
    CardasciiPass,
}

/// A message and the endpoints it goes to; it is encoded once and sent to each.
#[derive(Debug)]
pub struct Outgoing {
    pub to: Vec<EndpointId>,
    pub message: NetMessage,
}

/// A request from a player to the table server.
#[derive(Debug, Clone, PartialEq, Eq)]
pub enum FromClientMessage {
    Ping,
    NewTurn,
    TurnAnswer(usize, AnswerData),
}

/// How a turn ended, as the table server tells a player.
#[derive(Debug, Clone, Copy, PartialEq, Eq, Structural)]
pub enum TurnEndType {
    Tie,
    YouWin,
    OtherWin,
}

/// A message from the table server to a player.
#[derive(Debug, Clone, PartialEq, Eq)]
pub enum FromServerMessage {
    /// The reply to a ping over a connection: the client's number.
    Pong(usize),
    /// The reply to a ping without a connection.
    UnknownPong,
    /// The turn is over.
    TurnEnd(TurnEndType),
    /// A notice for the player.
    SendMsg(String),
    /// The answer was not right; the turn goes on.
    TurnContinue,
    /// The cards of a new turn.
    TurnBegin(HandCardData),
}

} // verus!
