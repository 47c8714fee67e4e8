//! The authentication gate: a shared-secret header check that precedes
//! all handler logic.

use vstd::prelude::*;

use crate::responses::ApiError;
use crate::responses::is_unauthorized;
use crate::responses::unauthorized_error;

verus! {

/// The credential header as presented by a request: absent, or its value.
pub open spec fn provided_view(provided: Option<&String>) -> Option<Seq<char>> {
    match provided {
        Option::Some(s) => Option::Some(s@),
        Option::None => Option::None,
    }
}

/// Whether a presented credential is accepted: it must be present and
/// equal to the configured secret.
pub open spec fn key_accepted(provided: Option<Seq<char>>, secret: Seq<char>) -> bool {
    provided == Option::<Seq<char>>::Some(secret)
}

/// The authentication gate. `provided` is the designated request
/// header's value, if the header was present; `secret` is the
/// process-configured shared secret. Absence or inequality yields the
/// unauthorized reply and nothing else runs for the request.
pub fn validate_api_key(provided: Option<&String>, secret: &String) -> (r: Result<(), ApiError>)
    ensures
        r is Ok <==> key_accepted(provided_view(provided), secret@),
        r is Err ==> is_unauthorized(r->Err_0),
{
    match provided {
        Option::Some(k) if *k == *secret => Ok(()),
        _ => Err(unauthorized_error()),
    }
}

} // verus!
