//! The error values this library hands to its callers.
//!
//! Two kinds: a setup-time failure to attach to the remote object manager
//! or a signal source, and a per-call transport failure (a property read or
//! write, or an enumeration, failed — including the race where the target
//! object disappeared between enumeration and projection, or between
//! listing and answering). Both carry the transport's description and
//! propagate unchanged: no retry, no silent suppression.

use vstd::prelude::*;
use vstd::string::StringExecFns;

verus! {

/// An error raised by a listing, a submission, or a subscription.
#[derive(Debug)]
pub enum QuestionsError {
    /// Could not attach to the remote object manager or a signal source.
    Connection(String),
    /// A property read or write, or an enumeration, failed.
    Ipc(String),
}

/// The prefix every rendered error message carries.
pub open spec fn message_prefix_chars() -> Seq<char> {
    "Question service error: "@
}

/// The rendered message of `e`: the common prefix followed by the
/// transport's own description.
pub open spec fn message_chars(e: &QuestionsError) -> Seq<char> {
    message_prefix_chars() + e.description()
}

impl QuestionsError {
    /// The transport's own description of the failure.
    pub open spec fn description(&self) -> Seq<char> {
        match *self {
            QuestionsError::Connection(m) => m@,
            QuestionsError::Ipc(m) => m@,
        }
    }

    /// Renders the error as a descriptive message.
    pub fn message(&self) -> (r: String)
        ensures
            r@ == message_chars(self),
    {
        let mut s = "Question service error: ".to_owned();
        match self {
            QuestionsError::Connection(m) => s.append(m.as_str()),
            QuestionsError::Ipc(m) => s.append(m.as_str()),
        }
        s
    }
}

} // verus!
