//! Verified core of an ESP32 lighting controller: the LED matrix model and its
//! display order, the in-memory stores of the Spotify session and of the current
//! song, and the request/response decisions of the small web server and of the
//! song poller.

pub mod currently_playing_song_poller;
pub mod dao;
pub mod html;
pub mod led;
pub mod routes;
pub mod spotify;
pub mod utils;
pub mod wifi;
