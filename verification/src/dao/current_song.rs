use vstd::prelude::*;

use super::DaoError;
use crate::spotify::CurrentSong;

verus! {

/// What saving a song did to the store.
#[derive(Clone, Copy, Debug, PartialEq, Eq, Structural)]
pub enum SaveResult {
    /// The stored song already had this album URL; nothing was written.
    Unchanged,
    /// The song was stored.
    Updated,
}

/// The song that is stored before a save, compared with the one being saved:
/// does the store already hold a song with the same album URL?
pub open spec fn holds_same_song(stored: Option<CurrentSong>, song: CurrentSong) -> bool {
    stored is Some && stored.unwrap()@ == song@
}

/// The store and the result after saving `song` into a store holding `stored`:
/// a song equal to the stored one leaves the store alone, any other replaces it.
pub open spec fn after_save(stored: Option<CurrentSong>, song: CurrentSong) -> (
    Option<CurrentSong>,
    SaveResult,
) {
    if holds_same_song(stored, song) {
        (stored, SaveResult::Unchanged)
    } else {
        (Some(song), SaveResult::Updated)
    }
}

/// A store for the song that is currently playing.
pub trait CurrentSongDao {
    /// The song held by the store.
    spec fn stored_song(&self) -> Option<CurrentSong>;

    /// The store cannot refuse a write (it is not backed by anything that can fail).
    spec fn never_fails(&self) -> bool;

    fn get_current_song(&self) -> (song: Option<&CurrentSong>)
        ensures
            match song {
                Some(s) => self.stored_song() == Some(*s),
                None => self.stored_song() is None,
            },
    ;

    /// Stores `song` unless the store already holds a song with the same album URL.
    fn save_current_song(&mut self, song: CurrentSong) -> (result: Result<SaveResult, DaoError>)
        ensures
            match result {
                Ok(outcome) => (final(self).stored_song(), outcome) == after_save(
                    old(self).stored_song(),
                    song,
                ),
                Err(_) => final(self).stored_song() == old(self).stored_song(),
            },
            old(self).never_fails() ==> result is Ok,
            old(self).never_fails() ==> final(self).never_fails(),
    ;
}

/// The current song, kept in memory.
#[derive(Debug, Default)]
pub struct CurrentSongDaoImpl {
    current_song: Option<CurrentSong>,
}

impl CurrentSongDaoImpl {
    pub closed spec fn song(&self) -> Option<CurrentSong> {
        self.current_song
    }

    /// An empty store.
    pub fn new() -> (dao: Self)
        ensures
            dao.stored_song() is None,
    {
        Self { current_song: None }
    }
}

impl CurrentSongDao for CurrentSongDaoImpl {
    open spec fn stored_song(&self) -> Option<CurrentSong> {
        self.song()
    }

    /// Memory never refuses a write.
    open spec fn never_fails(&self) -> bool {
        true
    }

    fn get_current_song(&self) -> (song: Option<&CurrentSong>) {
        self.current_song.as_ref()
    }

    /// Never fails: the store is memory.
    fn save_current_song(&mut self, song: CurrentSong) -> (result: Result<SaveResult, DaoError>)
        ensures
            result is Ok,
    {
        let same = match &self.current_song {
            Some(current_song) => current_song.album_url == song.album_url,
            None => false,
        };
        if same {
            Ok(SaveResult::Unchanged)
        } else {
            self.current_song = Some(song);
            Ok(SaveResult::Updated)
        }
    }
}

/// After a song is saved the store holds a song with that album URL, whatever it held before.
pub proof fn law_save_then_get(stored: Option<CurrentSong>, song: CurrentSong)
    ensures
        after_save(stored, song).0 is Some,
        after_save(stored, song).0.unwrap()@ == song@,
{
}

/// Saving the same song twice changes nothing the second time: the second save
/// answers `Unchanged` and leaves the store as the first save left it.
pub proof fn law_save_twice_unchanged(stored: Option<CurrentSong>, song: CurrentSong)
    ensures
        ({
            let (first, _) = after_save(stored, song);
            let (second, outcome) = after_save(first, song);
            outcome == SaveResult::Unchanged && second == first
        }),
{
}

/// A save answers `Updated` exactly when the store did not already hold a song
/// with the same album URL.
pub proof fn law_updated_iff_changed(stored: Option<CurrentSong>, song: CurrentSong)
    ensures
        (after_save(stored, song).1 == SaveResult::Updated) <==> !holds_same_song(stored, song),
{
}

} // verus!
