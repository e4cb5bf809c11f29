//! What the transport hands in.

use vstd::prelude::*;

verus! {

/// What an inbound message carries.
#[derive(Clone, Debug, PartialEq, Eq)]
pub enum Payload {
    /// A text message.
    Text(String),
    /// An uploaded photo, by its reference.
    Photo(String),
    /// Anything else.
    Unsupported,
}

/// A payload as a mathematical value.
pub enum PayloadView {
    Text(Seq<char>),
    Photo(Seq<char>),
    Unsupported,
}

impl View for Payload {
    type V = PayloadView;

    open spec fn view(&self) -> PayloadView {
        match *self {
            Payload::Text(text) => PayloadView::Text(text@),
            Payload::Photo(reference) => PayloadView::Photo(reference@),
            Payload::Unsupported => PayloadView::Unsupported,
        }
    }
}

/// One inbound message of a conversation.
#[derive(Clone, Debug, PartialEq, Eq)]
pub struct Event {
    /// The conversation it belongs to.
    pub conversation: i64,
    /// The user who sent it, where the transport names one.
    pub sender: Option<u64>,
    pub payload: Payload,
}

/// An inbound message as a mathematical value.
pub struct EventView {
    pub conversation: i64,
    pub sender: Option<u64>,
    pub payload: PayloadView,
}

impl View for Event {
    type V = EventView;

    open spec fn view(&self) -> EventView {
        EventView { conversation: self.conversation, sender: self.sender, payload: self.payload@ }
    }
}

} // verus!
