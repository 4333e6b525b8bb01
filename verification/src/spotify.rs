use vstd::prelude::*;

verus! {

/// The credentials of a Spotify session.
pub struct SpotifyKey {
    pub access_token: String,
    pub refresh_token: String,
    pub expires_at: u32,
}

/// The song that is playing, known by the URL of its album cover.
#[derive(Debug, PartialEq, Eq)]
pub struct CurrentSong {
    pub album_url: String,
}

impl View for CurrentSong {
    type V = Seq<char>;

    open spec fn view(&self) -> Seq<char> {
        self.album_url@
    }
}

} // verus!
