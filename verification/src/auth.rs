//! Authentication of a request, which is settled before any store is touched.

use vstd::prelude::*;
use crate::error::DownloadError;

verus! {

/// The token that counts among the values of the authorization header: the
/// one supplied last. Without a value there is no token.
pub open spec fn last_supplied(values: Seq<String>) -> Option<String> {
    if values.len() == 0 {
        None
    } else {
        Some(values.last())
    }
}

/// Picks the token out of the authorization header's values, given in the
/// order in which they were added to the request.
pub fn last_token(values: &Vec<String>) -> (token: Option<String>)
    ensures
        token == last_supplied(values@),
{
    let n: usize = values.len();
    if n == 0 {
        None
    } else {
        Some(values[n - 1].clone())
    }
}

/// Decides on the identity store's answer: the author it found passes,
/// and a token that names nobody is refused.
pub fn gate<A>(resolved: Option<A>) -> (passed: Result<A, DownloadError>)
    ensures
        passed == match resolved {
            Some(author) => Ok::<A, DownloadError>(author),
            None => Err::<A, DownloadError>(DownloadError::Unauthorized),
        },
{
    match resolved {
        Some(author) => Ok(author),
        None => Err(DownloadError::Unauthorized),
    }
}

} // verus!
