//! The gateway's error taxonomy. Each variant carries the textual
//! description of the underlying failure; the binary maps foreign error
//! values into these variants at the boundary.

use vstd::prelude::*;

verus! {

/// A failure surfaced by the gateway.
///
/// `Client` covers upstream transport and deserialization failures,
/// `Io` filesystem failures, `Server` failures of the serving stack.
#[derive(Debug)]
pub enum Error {
    Client(String),
    Io(String),
    Server(String),
}

/// The mathematical shape of an error: its variant and the characters of its
/// description.
pub ghost enum ErrorModel {
    Client(Seq<char>),
    Io(Seq<char>),
    Server(Seq<char>),
}

impl View for Error {
    type V = ErrorModel;

    open spec fn view(&self) -> ErrorModel {
        match self {
            Error::Client(m) => ErrorModel::Client(m@),
            Error::Io(m) => ErrorModel::Io(m@),
            Error::Server(m) => ErrorModel::Server(m@),
        }
    }
}

impl Error {
    /// An identical error value.
    pub fn dup(&self) -> (r: Error)
        ensures
            r@ == self@,
    {
        match self {
            Error::Client(m) => Error::Client(m.clone()),
            Error::Io(m) => Error::Io(m.clone()),
            Error::Server(m) => Error::Server(m.clone()),
        }
    }
    /// The textual description carried by the error.
    pub fn message(&self) -> (r: &str)
        ensures
            r@ == self.message_spec(),
    {
        match self {
            Error::Client(m) => m.as_str(),
            Error::Io(m) => m.as_str(),
            Error::Server(m) => m.as_str(),
        }
    }

    /// The description, as a sequence of characters.
    pub open spec fn message_spec(&self) -> Seq<char> {
        match self {
            Error::Client(m) => m@,
            Error::Io(m) => m@,
            Error::Server(m) => m@,
        }
    }
}

} // verus!
