use esp32_lighting::dao::current_song::{CurrentSongDao, CurrentSongDaoImpl, SaveResult};
use esp32_lighting::dao::spotify_key::{SpotifyKeyDao, SpotifyKeyDaoImpl};
use esp32_lighting::spotify::{CurrentSong, SpotifyKey};

fn song(url: &str) -> CurrentSong {
    CurrentSong { album_url: url.to_string() }
}

#[test]
fn new_song_store_is_empty() {
    let dao = CurrentSongDaoImpl::new();
    assert!(dao.get_current_song().is_none());
}

#[test]
fn first_save_updates_and_reads_back() {
    let mut dao = CurrentSongDaoImpl::new();
    assert!(matches!(dao.save_current_song(song("http://a/1.jpg")), Ok(SaveResult::Updated)));
    assert_eq!(dao.get_current_song(), Some(&song("http://a/1.jpg")));
}

#[test]
fn saving_same_song_again_is_unchanged() {
    let mut dao = CurrentSongDaoImpl::new();
    dao.save_current_song(song("http://a/1.jpg")).unwrap();
    assert!(matches!(dao.save_current_song(song("http://a/1.jpg")), Ok(SaveResult::Unchanged)));
    assert_eq!(dao.get_current_song(), Some(&song("http://a/1.jpg")));
}

#[test]
fn saving_other_song_updates() {
    let mut dao = CurrentSongDaoImpl::new();
    dao.save_current_song(song("http://a/1.jpg")).unwrap();
    assert!(matches!(dao.save_current_song(song("http://a/2.jpg")), Ok(SaveResult::Updated)));
    assert_eq!(dao.get_current_song(), Some(&song("http://a/2.jpg")));
}

fn key(token: &str) -> SpotifyKey {
    SpotifyKey {
        access_token: token.to_string(),
        refresh_token: "refresh".to_string(),
        expires_at: 3600,
    }
}

#[test]
fn spotify_key_store_save_get_clear() {
    let mut dao = SpotifyKeyDaoImpl::new();
    assert!(dao.get_spotify_key().is_none());
    dao.save_spotify_key(key("one")).unwrap();
    assert_eq!(dao.get_spotify_key().unwrap().access_token, "one");
    dao.save_spotify_key(key("two")).unwrap();
    let stored = dao.get_spotify_key().unwrap();
    assert_eq!(stored.access_token, "two");
    assert_eq!(stored.refresh_token, "refresh");
    assert_eq!(stored.expires_at, 3600);
    assert!(dao.clear().is_ok());
    assert!(dao.get_spotify_key().is_none());
}
