use vstd::prelude::*;

use super::DaoError;
pub use crate::spotify::SpotifyKey;

verus! {

/// A store for the credentials of the Spotify session.
pub trait SpotifyKeyDao {
    /// The key held by the store.
    spec fn stored_key(&self) -> Option<SpotifyKey>;

    /// The store cannot refuse a write (it is not backed by anything that can fail).
    spec fn never_fails(&self) -> bool;

    fn get_spotify_key(&self) -> (key: Option<&SpotifyKey>)
        ensures
            match key {
                Some(k) => self.stored_key() == Some(*k),
                None => self.stored_key() is None,
            },
    ;

    /// Replaces the stored key by `key`.
    fn save_spotify_key(&mut self, key: SpotifyKey) -> (result: Result<(), DaoError>)
        ensures
            match result {
                Ok(()) => final(self).stored_key() == Some(key),
                Err(_) => final(self).stored_key() == old(self).stored_key(),
            },
            old(self).never_fails() ==> result is Ok,
            old(self).never_fails() ==> final(self).never_fails(),
    ;

    /// Forgets the stored key (logging out).
    fn clear(&mut self) -> (result: Result<(), DaoError>)
        ensures
            match result {
                Ok(()) => final(self).stored_key() is None,
                Err(_) => final(self).stored_key() == old(self).stored_key(),
            },
            old(self).never_fails() ==> result is Ok,
            old(self).never_fails() ==> final(self).never_fails(),
    ;
}

/// The Spotify key, kept in memory.
pub struct SpotifyKeyDaoImpl {
    key: Option<SpotifyKey>,
}

impl SpotifyKeyDaoImpl {
    pub closed spec fn key(&self) -> Option<SpotifyKey> {
        self.key
    }

    /// An empty store.
    pub fn new() -> (dao: Self)
        ensures
            dao.stored_key() is None,
    {
        Self { key: None }
    }
}

impl SpotifyKeyDao for SpotifyKeyDaoImpl {
    open spec fn stored_key(&self) -> Option<SpotifyKey> {
        self.key()
    }

    /// Memory never refuses a write.
    open spec fn never_fails(&self) -> bool {
        true
    }

    fn get_spotify_key(&self) -> (key: Option<&SpotifyKey>) {
        self.key.as_ref()
    }

    /// Never fails: the store is memory.
    fn save_spotify_key(&mut self, key: SpotifyKey) -> (result: Result<(), DaoError>)
        ensures
            result is Ok,
    {
        self.key = Some(key);
        Ok(())
    }

    /// Never fails: the store is memory.
    fn clear(&mut self) -> (result: Result<(), DaoError>)
        ensures
            result is Ok,
    {
        self.key = None;
        Ok(())
    }
}

} // verus!
