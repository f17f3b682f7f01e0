//! What a client reports to whoever drives it.

use vstd::prelude::*;

verus! {

/// An event for the application (a terminal, a mobile app) that listens to a call.
#[derive(Debug)]
pub enum UacEvent {
    /// A technical log line.
    Log(String),
    /// A status message for the user.
    Status(String),
    /// An error.
    Error(String),
    /// The call is over.
    CallEnded,
}

/// The content of a [`UacEvent`].
pub ghost enum Notice {
    Log(Seq<char>),
    Status(Seq<char>),
    Error(Seq<char>),
    CallEnded,
}

impl View for UacEvent {
    type V = Notice;

    open spec fn view(&self) -> Notice {
        match self {
            UacEvent::Log(text) => Notice::Log(text@),
            UacEvent::Status(text) => Notice::Status(text@),
            UacEvent::Error(text) => Notice::Error(text@),
            UacEvent::CallEnded => Notice::CallEnded,
        }
    }
}

impl Clone for UacEvent {
    fn clone(&self) -> (copy: Self)
        ensures
            copy@ == self@,
    {
        match self {
            UacEvent::Log(text) => UacEvent::Log(text.clone()),
            UacEvent::Status(text) => UacEvent::Status(text.clone()),
            UacEvent::Error(text) => UacEvent::Error(text.clone()),
            UacEvent::CallEnded => UacEvent::CallEnded,
        }
    }
}

} // verus!
