use vstd::prelude::*;
use vstd::string::StringExecFns;

verus! {

/// The error taxonomy of the session-synchronization core.
///
/// `Configuration` is fatal at setup time (a missing or empty publishable
/// key). `Initialization` reports a failed `load` of the authentication
/// client; the caller may retry by initializing again. `Uninitialized` is
/// returned when a command other than initialize runs before the client is
/// loaded. `Serialization` reports an inbound bridge event that could not be
/// parsed. `ClerkApi` and `Authentication` carry errors surfaced by the
/// authentication client during normal operation.
#[derive(Debug)]
pub enum Error {
    Configuration(String),
    Initialization(String),
    Uninitialized,
    Serialization(String),
    ClerkApi(String),
    Authentication(String),
}

impl Error {
    /// The message of an error, as the command boundary renders it.
    pub open spec fn message_spec(&self) -> Seq<char> {
        match self {
            Error::Configuration(s) => "Clerk configuration error: "@ + s@,
            Error::Initialization(s) => "Clerk initialization error: "@ + s@,
            Error::Uninitialized => "Clerk client is not initialized"@,
            Error::Serialization(s) => "Clerk event serialization error: "@ + s@,
            Error::ClerkApi(s) => "Clerk API error: "@ + s@,
            Error::Authentication(s) => "Authentication error: "@ + s@,
        }
    }

    /// Render the error as a string; all internal errors are string-rendered
    /// at the command boundary.
    pub fn message(&self) -> (r: String)
        ensures
            r@ == self.message_spec(),
    {
        match self {
            Error::Configuration(s) => {
                let mut r = "Clerk configuration error: ".to_owned();
                r.append(s.as_str());
                r
            },
            Error::Initialization(s) => {
                let mut r = "Clerk initialization error: ".to_owned();
                r.append(s.as_str());
                r
            },
            Error::Uninitialized => "Clerk client is not initialized".to_owned(),
            Error::Serialization(s) => {
                let mut r = "Clerk event serialization error: ".to_owned();
                r.append(s.as_str());
                r
            },
            Error::ClerkApi(s) => {
                let mut r = "Clerk API error: ".to_owned();
                r.append(s.as_str());
                r
            },
            Error::Authentication(s) => {
                let mut r = "Authentication error: ".to_owned();
                r.append(s.as_str());
                r
            },
        }
    }
}

} // verus!
