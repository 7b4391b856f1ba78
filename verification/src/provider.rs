//! The errors every ground-station plugin reports in, so that the platform never
//! sees raw transport errors or provider-shaped responses.

use vstd::prelude::*;
use vstd::string::to_string_from_display_ensures;

verus! {

/// The transport error of reqwest, carried through opaquely.
#[verifier::external_type_specification]
#[verifier::external_body]
pub struct ExReqwestError(reqwest::Error);

/// Why a provider call failed.
#[derive(Debug)]
pub enum ProviderError {
    /// The provider refused the credentials.
    Auth,
    /// The thing asked for does not exist; the text names it.
    NotFound(String),
    /// The provider cannot serve the request now.
    Unavailable(String),
    /// The provider's response could not be understood.
    Decode(String),
    /// The request did not complete at the transport level.
    Transport(reqwest::Error),
}

/// The variant of a `ProviderError`, without its contents.
#[derive(Clone, Copy, Debug, PartialEq, Eq, Structural)]
pub enum ErrorKind {
    Auth,
    NotFound,
    Unavailable,
    Decode,
    Transport,
}

/// The variant of `e`.
pub open spec fn error_kind(e: ProviderError) -> ErrorKind {
    match e {
        ProviderError::Auth => ErrorKind::Auth,
        ProviderError::NotFound(_) => ErrorKind::NotFound,
        ProviderError::Unavailable(_) => ErrorKind::Unavailable,
        ProviderError::Decode(_) => ErrorKind::Decode,
        ProviderError::Transport(_) => ErrorKind::Transport,
    }
}

/// The message of an error other than a transport error.
pub open spec fn spec_message(e: ProviderError) -> Seq<char> {
    match e {
        ProviderError::Auth => "authentication failed"@,
        ProviderError::NotFound(s) => "not found: "@ + s@,
        ProviderError::Unavailable(s) => "provider unavailable: "@ + s@,
        ProviderError::Decode(s) => "could not decode provider response: "@ + s@,
        ProviderError::Transport(_) => Seq::empty(),
    }
}

impl ProviderError {
    /// The error's text: a fixed phrase for each variant followed by its detail;
    /// a transport error reads as reqwest's own text.
    pub fn message(&self) -> (m: String)
        ensures
            !(self is Transport) ==> m@ == spec_message(*self),
            self matches ProviderError::Transport(e) ==> to_string_from_display_ensures::<reqwest::Error>(&e, m),
    {
        match self {
            ProviderError::Auth => String::from_str("authentication failed"),
            ProviderError::NotFound(s) => String::from_str("not found: ").concat(s.as_str()),
            ProviderError::Unavailable(s) => String::from_str("provider unavailable: ").concat(s.as_str()),
            ProviderError::Decode(s) => String::from_str("could not decode provider response: ").concat(s.as_str()),
            ProviderError::Transport(e) => e.to_string(),
        }
    }
}

} // verus!
