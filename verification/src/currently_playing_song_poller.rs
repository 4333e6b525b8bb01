use vstd::prelude::*;

use crate::dao::current_song::{after_save, CurrentSongDao, SaveResult};
use crate::dao::spotify_key::SpotifyKeyDao;
use crate::dao::DaoError;
use crate::spotify::{CurrentSong, SpotifyKey};

verus! {

/// Spotify's answer to "what is playing now".
pub struct GetCurrentlyPlayingTrackResponse {
    pub timestamp: u64,
    pub progress_ms: u64,
    pub is_playing: bool,
    pub item: Track,
}

pub struct Track {
    pub album: Album,
    pub duration_ms: u64,
}

pub struct Album {
    pub images: Vec<Image>,
}

/// One rendition of an album cover.
pub struct Image {
    pub url: String,
    pub height: u32,
    pub width: u32,
}

/// Spotify's endpoint for the track that is playing.
pub const SPOTIFY_GET_CURRENTLY_PLAYING_TRACK_URL: &'static str =
    "https://api.spotify.com/v1/me/player/currently-playing";

/// The request one poll sends.
pub struct PollRequest {
    pub url: String,
    pub authorization: String,
}

/// The bearer authorization header value for an access token.
pub open spec fn bearer(access_token: Seq<char>) -> Seq<char> {
    "Bearer "@ + access_token
}

/// The first step of a poll: without a stored key there is nothing to ask
/// (the poll is skipped); with one, the request for the playing track,
/// authorized by the key's access token.
pub fn poll_request(key: Option<&SpotifyKey>) -> (request: Option<PollRequest>)
    ensures
        match key {
            None => request is None,
            Some(k) => request is Some && request->Some_0.url@
                == SPOTIFY_GET_CURRENTLY_PLAYING_TRACK_URL@ && request->Some_0.authorization@
                == bearer(k.access_token@),
        },
        key is Some ==> request is Some && request->Some_0.authorization@.len() == 7
            + key->Some_0.access_token@.len() && request->Some_0.authorization@.take(7) == "Bearer "@
            && request->Some_0.authorization@.skip(7) == key->Some_0.access_token@,
{
    match key {
        None => None,
        Some(k) => {
            proof {
                law_bearer_keeps_token(k.access_token@);
            }
            let mut authorization = String::from_str("Bearer ");
            authorization.append(k.access_token.as_str());
            Some(
                PollRequest {
                    url: String::from_str(SPOTIFY_GET_CURRENTLY_PLAYING_TRACK_URL),
                    authorization,
                },
            )
        },
    }
}

/// What to do with the status of the answer to a poll.
#[derive(Clone, Copy, Debug, PartialEq, Eq, Structural)]
pub enum PollStatusAction {
    /// 204: nothing is playing; the poll is done.
    NoContent,
    /// 200: read the track descriptions in the body.
    ReadBody,
    /// Any other status: the poll failed with it.
    Failed(u16),
}

pub fn poll_status_action(status: u16) -> (action: PollStatusAction)
    ensures
        action == if status == 204 {
            PollStatusAction::NoContent
        } else if status == 200 {
            PollStatusAction::ReadBody
        } else {
            PollStatusAction::Failed(status)
        },
{
    match status {
        204 => PollStatusAction::NoContent,
        200 => PollStatusAction::ReadBody,
        _ => PollStatusAction::Failed(status),
    }
}

/// `i` is the first of the narrowest images.
pub open spec fn is_first_narrowest(images: Seq<Image>, i: int) -> bool {
    &&& 0 <= i < images.len()
    &&& forall|j: int| 0 <= j < images.len() ==> images[i].width <= #[trigger] images[j].width
    &&& forall|j: int| 0 <= j < i ==> #[trigger] images[j].width > images[i].width
}

/// The URL of the smallest album cover: the first of the images of least width.
pub fn smallest_album_url(images: &Vec<Image>) -> (url: Option<String>)
    ensures
        match url {
            None => images@.len() == 0,
            Some(u) => exists|i: int| is_first_narrowest(images@, i) && u == images@[i].url,
        },
        url is None <==> images@.len() == 0,
        url is Some ==> exists|i: int|
            #![trigger images@[i]]
            {
                &&& 0 <= i < images@.len()
                &&& url->Some_0 == images@[i].url
                &&& forall|j: int| 0 <= j < images@.len() ==> images@[i].width <= #[trigger] images@[j].width
                &&& forall|j: int| 0 <= j < i ==> images@[i].width < #[trigger] images@[j].width
            },
{
    if images.len() == 0 {
        return None;
    }
    let mut best: usize = 0;
    let mut i: usize = 1;
    while i < images.len()
        invariant
            1 <= i <= images@.len(),
            best < i,
            forall|j: int| 0 <= j < i ==> images@[best as int].width <= #[trigger] images@[j].width,
            forall|j: int| 0 <= j < best ==> #[trigger] images@[j].width > images@[best as int].width,
        decreases images@.len() - i,
    {
        if images[i].width < images[best].width {
            best = i;
        }
        i = i + 1;
    }
    let url = images[best].url.clone();
    assert(is_first_narrowest(images@, best as int));
    assert(images@[best as int].url == url);
    Some(url)
}

/// What one track description did.
#[derive(Clone, Copy, Debug, PartialEq, Eq, Structural)]
pub enum TrackOutcome {
    /// The store already held this song.
    Unchanged,
    /// The store now holds this song.
    Updated,
    /// The track has no album cover, so there is no song to store.
    NoAlbumUrl,
    /// The store refused the song.
    SaveFailed(DaoError),
}

/// What recording one track description does, from the song stored
/// `before` to the song stored `after`, answering `outcome`: without album
/// covers nothing is saved (`NoAlbumUrl`); otherwise the URL of the first of
/// the narrowest covers is saved as the current song, and the outcome is what
/// the store answered.
pub open spec fn track_recorded(
    before: Option<CurrentSong>,
    after: Option<CurrentSong>,
    response: GetCurrentlyPlayingTrackResponse,
    outcome: TrackOutcome,
) -> bool {
    let images = response.item.album.images@;
    &&& images.len() == 0 ==> outcome == TrackOutcome::NoAlbumUrl && after == before
    &&& images.len() > 0 ==> exists|i: int|
        #![trigger images[i]]
        is_first_narrowest(images, i) && {
            let song = CurrentSong { album_url: images[i].url };
            match outcome {
                TrackOutcome::Unchanged => (after, SaveResult::Unchanged) == after_save(before, song),
                TrackOutcome::Updated => (after, SaveResult::Updated) == after_save(before, song),
                TrackOutcome::SaveFailed(_) => after == before,
                TrackOutcome::NoAlbumUrl => false,
            }
        }
}

/// Records the song of one track description: the URL of its smallest album
/// cover is saved as the current song.
pub fn record_track<D: CurrentSongDao>(
    dao: &mut D,
    response: &GetCurrentlyPlayingTrackResponse,
) -> (outcome: TrackOutcome)
    ensures
        track_recorded(old(dao).stored_song(), final(dao).stored_song(), *response, outcome),
        old(dao).never_fails() ==> !(outcome is SaveFailed),
{
    match smallest_album_url(&response.item.album.images) {
        None => TrackOutcome::NoAlbumUrl,
        Some(album_url) => {
            let ghost i = choose|i: int|
                is_first_narrowest(response.item.album.images@, i) && album_url
                    == response.item.album.images@[i].url;
            let song = CurrentSong { album_url };
            let result = dao.save_current_song(song);
            assert(is_first_narrowest(response.item.album.images@, i));
            match result {
                Ok(SaveResult::Unchanged) => TrackOutcome::Unchanged,
                Ok(SaveResult::Updated) => TrackOutcome::Updated,
                Err(e) => TrackOutcome::SaveFailed(e),
            }
        },
    }
}

/// Where one poll stands.
#[derive(Clone, Copy, Debug, PartialEq, Eq, Structural)]
pub enum PollState {
    /// The poll has not started.
    Idle,
    /// The request was sent; waiting for the status of the answer.
    AwaitingStatus,
    /// Reading the track descriptions in the body of the answer.
    ReadingBody,
    /// The poll is over.
    Done,
}

/// What happened since the last step.
pub enum PollEvent {
    /// The poll interval elapsed.
    Start,
    /// Spotify answered with this status.
    Status(u16),
    /// The next value of the answer body, decoded; `None` when it did not decode.
    Track(Option<GetCurrentlyPlayingTrackResponse>),
    /// The answer body has no more values.
    EndOfBody,
}

/// What the device does next.
pub enum PollAction {
    /// No Spotify key is stored: the poll is skipped.
    Skip,
    /// Send this request.
    SendRequest(PollRequest),
    /// Read the track descriptions of the body, one by one.
    ReadBody,
    /// A track description was recorded with this outcome.
    Recorded(TrackOutcome),
    /// A value of the body did not decode; it is passed over.
    SkippedUndecodable,
    /// The poll ended without error.
    Finished,
    /// The poll failed with this status.
    Fail(u16),
    /// The event does not belong to this state; do nothing.
    Ignore,
}

/// One step of a poll: from the state and what happened, the next state and
/// what to do. Without a stored key the poll is skipped; otherwise the request
/// goes out with the key's access token; status 204 ends the poll, 200 starts
/// reading the body, any other fails it; each decoded track description is
/// recorded, each value that does not decode is passed over, and the end of
/// the body ends the poll. Only recording touches the song store.
pub fn poll_step<C: CurrentSongDao, K: SpotifyKeyDao>(
    songs: &mut C,
    keys: &K,
    state: PollState,
    event: PollEvent,
) -> (next: (PollState, PollAction))
    ensures
        match (state, event) {
            (PollState::Idle, PollEvent::Start) => {
                &&& final(songs).stored_song() == old(songs).stored_song()
                &&& match keys.stored_key() {
                    None => next.0 == PollState::Done && next.1 == PollAction::Skip,
                    Some(k) => {
                        &&& next.0 == PollState::AwaitingStatus
                        &&& next.1 matches PollAction::SendRequest(request)
                        &&& request.url@ == SPOTIFY_GET_CURRENTLY_PLAYING_TRACK_URL@
                        &&& request.authorization@ == bearer(k.access_token@)
                    },
                }
            },
            (PollState::AwaitingStatus, PollEvent::Status(status)) => {
                &&& final(songs).stored_song() == old(songs).stored_song()
                &&& if status == 204 {
                    next.0 == PollState::Done && next.1 == PollAction::Finished
                } else if status == 200 {
                    next.0 == PollState::ReadingBody && next.1 == PollAction::ReadBody
                } else {
                    next.0 == PollState::Done && next.1 == PollAction::Fail(status)
                }
            },
            (PollState::ReadingBody, PollEvent::Track(None)) => {
                &&& final(songs).stored_song() == old(songs).stored_song()
                &&& next.0 == PollState::ReadingBody
                &&& next.1 == PollAction::SkippedUndecodable
            },
            (PollState::ReadingBody, PollEvent::Track(Some(response))) => {
                &&& next.0 == PollState::ReadingBody
                &&& next.1 matches PollAction::Recorded(outcome)
                &&& track_recorded(old(songs).stored_song(), final(songs).stored_song(), response, outcome)
                &&& old(songs).never_fails() ==> !(outcome is SaveFailed)
            },
            (PollState::ReadingBody, PollEvent::EndOfBody) => {
                &&& final(songs).stored_song() == old(songs).stored_song()
                &&& next.0 == PollState::Done
                &&& next.1 == PollAction::Finished
            },
            _ => {
                &&& final(songs).stored_song() == old(songs).stored_song()
                &&& next.0 == state
                &&& next.1 == PollAction::Ignore
            },
        },
{
    match (state, event) {
        (PollState::Idle, PollEvent::Start) => match poll_request(keys.get_spotify_key()) {
            None => (PollState::Done, PollAction::Skip),
            Some(request) => (PollState::AwaitingStatus, PollAction::SendRequest(request)),
        },
        (PollState::AwaitingStatus, PollEvent::Status(status)) => match poll_status_action(status) {
            PollStatusAction::NoContent => (PollState::Done, PollAction::Finished),
            PollStatusAction::ReadBody => (PollState::ReadingBody, PollAction::ReadBody),
            PollStatusAction::Failed(s) => (PollState::Done, PollAction::Fail(s)),
        },
        (PollState::ReadingBody, PollEvent::Track(None)) => {
            (PollState::ReadingBody, PollAction::SkippedUndecodable)
        },
        (PollState::ReadingBody, PollEvent::Track(Some(response))) => {
            let outcome = record_track(songs, &response);
            (PollState::ReadingBody, PollAction::Recorded(outcome))
        },
        (PollState::ReadingBody, PollEvent::EndOfBody) => (PollState::Done, PollAction::Finished),
        (other, _) => (other, PollAction::Ignore),
    }
}

/// The bearer header is `Bearer ` followed by the whole token, whatever its
/// length: seven characters longer than the token, and the token is what
/// follows the first seven.
pub proof fn law_bearer_keeps_token(token: Seq<char>)
    ensures
        bearer(token).len() == 7 + token.len(),
        bearer(token).take(7) == "Bearer "@,
        bearer(token).skip(7) == token,
{
    reveal_strlit("Bearer ");
    assert(bearer(token).take(7) =~= "Bearer "@);
    assert(bearer(token).skip(7) =~= token);
}

/// The cover chosen is the narrowest: no image is narrower, and every image
/// before it is strictly wider (ties go to the first).
pub proof fn law_first_narrowest_is_narrowest(images: Seq<Image>, i: int)
    requires
        is_first_narrowest(images, i),
    ensures
        0 <= i < images.len(),
        forall|j: int| 0 <= j < images.len() ==> images[i].width <= #[trigger] images[j].width,
        forall|j: int| 0 <= j < i ==> images[i].width < #[trigger] images[j].width,
{
}

/// At most one image is the first of the narrowest: the choice is determined
/// by the widths alone.
pub proof fn law_first_narrowest_unique(images: Seq<Image>, i: int, k: int)
    requires
        is_first_narrowest(images, i),
        is_first_narrowest(images, k),
    ensures
        i == k,
{
    if i < k {
        assert(images[i].width <= images[k].width);
    } else if k < i {
        assert(images[k].width <= images[i].width);
    }
}

} // verus!
