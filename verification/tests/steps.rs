use esp32_lighting::currently_playing_song_poller::{
    poll_step, Album, GetCurrentlyPlayingTrackResponse, Image, PollAction, PollEvent, PollState,
    Track, TrackOutcome,
};
use esp32_lighting::dao::current_song::{CurrentSongDao, CurrentSongDaoImpl};
use esp32_lighting::dao::spotify_key::{SpotifyKeyDao, SpotifyKeyDaoImpl};
use esp32_lighting::routes::spotify_callback::{
    callback_step, CallbackAction, CallbackEvent, CallbackState, SpotifyAuthResponse,
};
use esp32_lighting::routes::RouteError;
use esp32_lighting::spotify::{CurrentSong, SpotifyKey};

fn auth_response() -> SpotifyAuthResponse {
    SpotifyAuthResponse {
        access_token: "access".to_string(),
        token_type: "Bearer".to_string(),
        scope: "user-read-currently-playing".to_string(),
        expires_in: 3600,
        refresh_token: "refresh".to_string(),
    }
}

#[test]
fn callback_happy_path() {
    let mut dao = SpotifyKeyDaoImpl::new();
    let uri = "/spotify/callback?code=abc".to_string();
    let (state, action) = callback_step(
        &mut dao,
        CallbackState::AwaitingRequest,
        CallbackEvent::Request(uri),
        "http://1.2.3.4/spotify/callback",
        "id",
        "secret",
    );
    assert_eq!(state, CallbackState::AwaitingStatus);
    match action {
        CallbackAction::SendTokenRequest(request) => {
            assert_eq!(request.authorization, "Basic aWQ6c2VjcmV0");
            assert_eq!(
                request.body,
                "code=abc&redirect_uri=http://1.2.3.4/spotify/callback&grant_type=authorization_code"
            );
        }
        _ => panic!("expected a token request"),
    }
    let (state, action) =
        callback_step(&mut dao, state, CallbackEvent::TokenStatus(200), "r", "i", "s");
    assert_eq!(state, CallbackState::AwaitingBody);
    assert!(matches!(action, CallbackAction::ReadBody));
    assert!(dao.get_spotify_key().is_none());
    let (state, action) = callback_step(
        &mut dao,
        state,
        CallbackEvent::TokenBody(Some(auth_response())),
        "r",
        "i",
        "s",
    );
    assert_eq!(state, CallbackState::Done);
    match action {
        CallbackAction::Redirect(location) => assert_eq!(location, "/"),
        _ => panic!("expected a redirect"),
    }
    assert_eq!(dao.get_spotify_key().unwrap().access_token, "access");
}

#[test]
fn callback_failures_store_nothing() {
    let mut dao = SpotifyKeyDaoImpl::new();
    let (state, action) = callback_step(
        &mut dao,
        CallbackState::AwaitingRequest,
        CallbackEvent::Request("/spotify/callback?state=1".to_string()),
        "r",
        "i",
        "s",
    );
    assert_eq!(state, CallbackState::Done);
    assert!(matches!(action, CallbackAction::Fail(RouteError::MissingAuthCode)));

    let (state, action) = callback_step(
        &mut dao,
        CallbackState::AwaitingStatus,
        CallbackEvent::TokenStatus(400),
        "r",
        "i",
        "s",
    );
    assert_eq!(state, CallbackState::Done);
    assert!(matches!(action, CallbackAction::Fail(RouteError::AuthRequestFailed)));

    let (state, action) = callback_step(
        &mut dao,
        CallbackState::AwaitingBody,
        CallbackEvent::TokenBody(None),
        "r",
        "i",
        "s",
    );
    assert_eq!(state, CallbackState::Done);
    assert!(matches!(action, CallbackAction::Fail(RouteError::InvalidAuthResponse)));

    // a body before the status is out of order and ignored
    let (state, action) = callback_step(
        &mut dao,
        CallbackState::AwaitingStatus,
        CallbackEvent::TokenBody(Some(auth_response())),
        "r",
        "i",
        "s",
    );
    assert_eq!(state, CallbackState::AwaitingStatus);
    assert!(matches!(action, CallbackAction::Ignore));
    assert!(dao.get_spotify_key().is_none());
}

fn track(images: Vec<Image>) -> GetCurrentlyPlayingTrackResponse {
    GetCurrentlyPlayingTrackResponse {
        timestamp: 0,
        progress_ms: 0,
        is_playing: true,
        item: Track { album: Album { images }, duration_ms: 1 },
    }
}

#[test]
fn poll_without_key_skips() {
    let mut songs = CurrentSongDaoImpl::new();
    let keys = SpotifyKeyDaoImpl::new();
    let (state, action) = poll_step(&mut songs, &keys, PollState::Idle, PollEvent::Start);
    assert_eq!(state, PollState::Done);
    assert!(matches!(action, PollAction::Skip));
}

#[test]
fn poll_full_round() {
    let mut songs = CurrentSongDaoImpl::new();
    let mut keys = SpotifyKeyDaoImpl::new();
    keys.save_spotify_key(SpotifyKey {
        access_token: "tok".to_string(),
        refresh_token: "r".to_string(),
        expires_at: 1,
    })
    .unwrap();
    let (state, action) = poll_step(&mut songs, &keys, PollState::Idle, PollEvent::Start);
    assert_eq!(state, PollState::AwaitingStatus);
    match action {
        PollAction::SendRequest(request) => assert_eq!(request.authorization, "Bearer tok"),
        _ => panic!("expected a request"),
    }
    let (state, action) = poll_step(&mut songs, &keys, state, PollEvent::Status(200));
    assert_eq!(state, PollState::ReadingBody);
    assert!(matches!(action, PollAction::ReadBody));
    let (state, action) = poll_step(&mut songs, &keys, state, PollEvent::Track(None));
    assert_eq!(state, PollState::ReadingBody);
    assert!(matches!(action, PollAction::SkippedUndecodable));
    let image = Image { url: "cover".to_string(), height: 64, width: 64 };
    let (state, action) =
        poll_step(&mut songs, &keys, state, PollEvent::Track(Some(track(vec![image]))));
    assert!(matches!(action, PollAction::Recorded(TrackOutcome::Updated)));
    assert_eq!(songs.get_current_song(), Some(&CurrentSong { album_url: "cover".to_string() }));
    let (state, action) = poll_step(&mut songs, &keys, state, PollEvent::EndOfBody);
    assert_eq!(state, PollState::Done);
    assert!(matches!(action, PollAction::Finished));
}

#[test]
fn poll_status_outcomes() {
    let mut songs = CurrentSongDaoImpl::new();
    let keys = SpotifyKeyDaoImpl::new();
    let (state, action) =
        poll_step(&mut songs, &keys, PollState::AwaitingStatus, PollEvent::Status(204));
    assert_eq!(state, PollState::Done);
    assert!(matches!(action, PollAction::Finished));
    let (state, action) =
        poll_step(&mut songs, &keys, PollState::AwaitingStatus, PollEvent::Status(500));
    assert_eq!(state, PollState::Done);
    assert!(matches!(action, PollAction::Fail(500)));
    let (state, action) = poll_step(&mut songs, &keys, PollState::Done, PollEvent::EndOfBody);
    assert_eq!(state, PollState::Done);
    assert!(matches!(action, PollAction::Ignore));
}
