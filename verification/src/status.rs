use vstd::prelude::*;

verus! {

/// The outcome classes a service call can be refused with.
#[derive(Clone, Copy, Debug, PartialEq, Eq, Structural)]
pub enum Code {
    InvalidArgument,
    NotFound,
    AlreadyExists,
    PermissionDenied,
    Aborted,
    Internal,
    DataLoss,
    Unauthenticated,
}

/// A refusal: its class and the message sent back to the caller.
#[derive(Debug)]
pub struct Status {
    pub code: Code,
    pub message: String,
}

/// `s` is the refusal of class `code` with exactly the text `message`.
pub open spec fn status_is(s: Status, code: Code, message: Seq<char>) -> bool {
    s.code == code && s.message@ == message
}

impl Status {
    /// Builds a refusal from a class and a message text.
    pub fn new(code: Code, message: &str) -> (s: Status)
        ensures
            status_is(s, code, message@),
    {
        Status { code, message: message.to_owned() }
    }

    /// Builds a refusal from a class and an owned message.
    pub fn with_message(code: Code, message: String) -> (s: Status)
        ensures
            status_is(s, code, message@),
    {
        Status { code, message }
    }
}

} // verus!
