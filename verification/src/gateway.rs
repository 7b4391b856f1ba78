//! The gateway's side of the plugin boundary: the HTTP status that each canonical
//! `ProviderError` is answered with.

use vstd::prelude::*;

use crate::provider::{error_kind, ErrorKind, ProviderError};

verus! {

/// The status the gateway answers an error of kind `k` with: 401 for `Auth`,
/// 404 for `NotFound`, 503 for `Unavailable`, 502 for `Decode` and `Transport`.
pub open spec fn status_for_kind(k: ErrorKind) -> u16 {
    match k {
        ErrorKind::Auth => 401,
        ErrorKind::NotFound => 404,
        ErrorKind::Unavailable => 503,
        ErrorKind::Decode => 502,
        ErrorKind::Transport => 502,
    }
}

/// The HTTP status the gateway answers `err` with.
pub fn provider_error_status(err: &ProviderError) -> (status: u16)
    ensures
        status == status_for_kind(error_kind(*err)),
{
    match err {
        ProviderError::Auth => 401,
        ProviderError::NotFound(_) => 404,
        ProviderError::Unavailable(_) => 503,
        ProviderError::Decode(_) => 502,
        ProviderError::Transport(_) => 502,
    }
}

} // verus!
