//! The error taxonomy of the core: a failure of the store layer (carrying
//! the store's own message), a write-path failure, and a read/render-path
//! failure. The boundary maps each kind to a fixed transport status and a
//! user-visible message; that mapping is computed here so the boundary can
//! emit it verbatim.

use vstd::prelude::*;

verus! {

/// Every failure the core reports is one of these kinds.
#[derive(Debug)]
pub enum Error {
    /// Any failure from the store layer; carries the store's own message.
    Database(String),
    /// A request-time failure on the append path.
    Write,
    /// A request-time failure on the listing/rendering path.
    Read,
}

/// The user-visible message of each error kind: the wrapped store message
/// for a store failure, a fixed text for the local kinds.
pub open spec fn response_message(e: Error) -> Seq<char> {
    match e {
        Error::Database(m) => m@,
        Error::Write => "fail to write"@,
        Error::Read => "fail to read"@,
    }
}

impl Error {
    /// The transport status and message for this error: every kind is an
    /// internal server error, with the message of [`response_message`].
    pub fn response_parts(&self) -> (r: (u16, String))
        ensures
            r.0 == 500,
            r.1@ == response_message(*self),
    {
        match self {
            Error::Database(m) => (500, m.clone()),
            Error::Write => (500, String::from_str("fail to write")),
            Error::Read => (500, String::from_str("fail to read")),
        }
    }
}

} // verus!
