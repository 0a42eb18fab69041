//! The error kinds a session can surface.

use vstd::prelude::*;

verus! {

/// Everything that can go wrong during a session. Transport and decoding
/// failures come from the network edge; the other two arise from the
/// session's own components.
#[derive(Clone, Copy, Debug, PartialEq, Eq, Structural)]
pub enum ErrorKind {
    /// The HTTP request itself failed or returned a non-success status.
    NetworkError,
    /// The response body could not be decoded into the expected shape.
    DecodeError,
    /// The selection already holds as many movies as its capacity allows.
    CapacityExceeded,
    /// No movie with the requested id is in the candidate pool.
    NotFoundError,
}

/// The description each error kind carries, as a sequence of
/// characters.
pub open spec fn description(k: ErrorKind) -> Seq<char> {
    match k {
        ErrorKind::NetworkError => "the request failed"@,
        ErrorKind::DecodeError => "the response could not be decoded"@,
        ErrorKind::CapacityExceeded => "the selection is already full"@,
        ErrorKind::NotFoundError => "no such movie is on offer"@,
    }
}

impl ErrorKind {
    /// A short human-readable description, for the shell to display.
    pub fn describe(&self) -> (r: &'static str)
        ensures
            r@ == description(*self),
            r@.len() > 0,
    {
        proof {
            reveal_strlit("the request failed");
            reveal_strlit("the response could not be decoded");
            reveal_strlit("the selection is already full");
            reveal_strlit("no such movie is on offer");
        }
        match self {
            ErrorKind::NetworkError => "the request failed",
            ErrorKind::DecodeError => "the response could not be decoded",
            ErrorKind::CapacityExceeded => "the selection is already full",
            ErrorKind::NotFoundError => "no such movie is on offer",
        }
    }
}

} // verus!
