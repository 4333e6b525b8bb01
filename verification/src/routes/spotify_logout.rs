use vstd::prelude::*;

use super::RouteError;
use crate::dao::spotify_key::SpotifyKeyDao;

verus! {

/// Logs out: forgets the stored Spotify key.
pub fn spotify_logout<D: SpotifyKeyDao>(dao: &mut D) -> (result: Result<(), RouteError>)
    ensures
        match result {
            Ok(()) => final(dao).stored_key() is None,
            Err(e) => e == RouteError::Storage && final(dao).stored_key() == old(dao).stored_key(),
        },
        old(dao).never_fails() ==> result is Ok,
{
    match dao.clear() {
        Ok(()) => Ok(()),
        Err(_) => Err(RouteError::Storage),
    }
}

} // verus!
