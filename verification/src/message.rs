//! The messages that actors exchange.
use vstd::prelude::*;

verus! {

/// What a data message carries: one of a closed set of payload types. An
/// actor decides at the moment of handling which of them it understands.
#[derive(Clone, Debug, PartialEq, Eq)]
pub enum Payload {
    /// A piece of text.
    Text(String),
    /// An unsigned number.
    Number(u32),
    /// A truth value.
    Flag(bool),
}

/// The mathematical value of a [`Payload`].
pub enum PayloadView {
    Text(Seq<char>),
    Number(u32),
    Flag(bool),
}

impl View for Payload {
    type V = PayloadView;

    open spec fn view(&self) -> PayloadView {
        match *self {
            Payload::Text(s) => PayloadView::Text(s@),
            Payload::Number(n) => PayloadView::Number(n),
            Payload::Flag(b) => PayloadView::Flag(b),
        }
    }
}

impl Payload {
    /// The text of a textual payload, `None` for every other type.
    pub fn as_text(&self) -> (r: Option<&String>)
        ensures
            match r {
                Some(s) => self@ == PayloadView::Text(s@),
                None => !(self@ is Text),
            },
    {
        match self {
            Payload::Text(s) => Some(s),
            _ => None,
        }
    }

    /// The number of a numeric payload, `None` for every other type.
    pub fn as_number(&self) -> (r: Option<u32>)
        ensures
            match r {
                Some(n) => self@ == PayloadView::Number(n),
                None => !(self@ is Number),
            },
    {
        match self {
            Payload::Number(n) => Some(*n),
            _ => None,
        }
    }

    /// The truth value of a flag payload, `None` for every other type.
    pub fn as_flag(&self) -> (r: Option<bool>)
        ensures
            match r {
                Some(b) => self@ == PayloadView::Flag(b),
                None => !(self@ is Flag),
            },
    {
        match self {
            Payload::Flag(b) => Some(*b),
            _ => None,
        }
    }
}

/// A message: either data with a payload, or a bare command.
///
/// A message is never changed after it is built; it moves whole from the
/// sender into the inbox of the actor that receives it.
#[derive(Clone, Debug, PartialEq, Eq)]
pub enum Message {
    /// Data for the receiving actor.
    Data(Payload),
    /// A signal that carries no data.
    Command,
}

/// The mathematical value of a [`Message`].
pub enum MessageView {
    Data(PayloadView),
    Command,
}

impl View for Message {
    type V = MessageView;

    open spec fn view(&self) -> MessageView {
        match *self {
            Message::Data(p) => MessageView::Data(p@),
            Message::Command => MessageView::Command,
        }
    }
}

impl Message {
    /// Whether this is the command signal.
    pub fn is_command(&self) -> (r: bool)
        ensures
            r == (self@ is Command),
    {
        match self {
            Message::Command => true,
            Message::Data(_) => false,
        }
    }

    /// The payload of a data message, `None` for the command signal.
    pub fn payload(&self) -> (r: Option<&Payload>)
        ensures
            match r {
                Some(p) => self@ == MessageView::Data(p@),
                None => self@ is Command,
            },
    {
        match self {
            Message::Data(p) => Some(p),
            Message::Command => None,
        }
    }
}

} // verus!
