//! How a piece of code ended, as a test of a generated macro sees it.

use vstd::prelude::*;

verus! {

/// What became of running a piece of code that may panic.
#[derive(Clone, Debug, PartialEq, Eq)]
pub enum PanicMessage {
    /// It panicked with this message.
    Message(String),
    /// It panicked with something that is not text.
    CouldNotGetMessage,
    /// It ran to its end.
    DidNotPanic,
}

/// What a [`PanicMessage`] stands for.
pub enum PanicMessageView {
    Message(Seq<char>),
    CouldNotGetMessage,
    DidNotPanic,
}

impl View for PanicMessage {
    type V = PanicMessageView;

    open spec fn view(&self) -> PanicMessageView {
        match self {
            PanicMessage::Message(text) => PanicMessageView::Message(text@),
            PanicMessage::CouldNotGetMessage => PanicMessageView::CouldNotGetMessage,
            PanicMessage::DidNotPanic => PanicMessageView::DidNotPanic,
        }
    }
}

/// The outcome that the payload of a panic stands for. A payload is read as
/// an owned string or as a string slice; the owned string goes first.
pub open spec fn payload_outcome(owned: Option<&str>, borrowed: Option<&str>) -> PanicMessageView {
    match (owned, borrowed) {
        (Some(text), _) => PanicMessageView::Message(text@),
        (None, Some(text)) => PanicMessageView::Message(text@),
        (None, None) => PanicMessageView::CouldNotGetMessage,
    }
}

impl PanicMessage {
    /// Tells what a panic said from the two readings of its payload: as an
    /// owned string and as a string slice, each present if the payload is of
    /// that type.
    pub fn from_payload(owned: Option<&str>, borrowed: Option<&str>) -> (outcome: PanicMessage)
        ensures
            outcome@ == payload_outcome(owned, borrowed),
    {
        match owned {
            Some(text) => PanicMessage::Message(String::from_str(text)),
            None => match borrowed {
                Some(text) => PanicMessage::Message(String::from_str(text)),
                None => PanicMessage::CouldNotGetMessage,
            },
        }
    }
}

} // verus!
