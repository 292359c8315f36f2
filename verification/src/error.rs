//! Error taxonomy of the adapter.
use vstd::prelude::*;

verus! {

/// What went wrong with an adapter operation.
///
/// `Validation` is raised before any engine request is built: an empty or
/// whitespace-only name or id, or a module whose type tag is not the
/// supported one. `Configuration` is raised at construction for an
/// unusable engine locator. `Engine` carries a non-success engine response
/// or transport failure, surfaced unchanged by the surrounding
/// application. `Serialization` reports a failure encoding a payload.
#[derive(Debug)]
pub enum Error {
    Validation(String),
    Configuration(String),
    Engine(String),
    Serialization(String),
}

impl Error {
    /// The message carried by the error.
    pub fn message(&self) -> (r: &String)
        ensures
            r@ == self.spec_message(),
    {
        match self {
            Error::Validation(m) => m,
            Error::Configuration(m) => m,
            Error::Engine(m) => m,
            Error::Serialization(m) => m,
        }
    }

    pub open spec fn spec_message(self) -> Seq<char> {
        match self {
            Error::Validation(m) => m@,
            Error::Configuration(m) => m@,
            Error::Engine(m) => m@,
            Error::Serialization(m) => m@,
        }
    }
}

} // verus!
