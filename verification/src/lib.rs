//! The logic of a helper that makes a player on the Logitech Media Server (LMS) a
//! Spotify Connect device.
//!
//! [`lms`] builds the requests that the server takes and reads the state that it
//! reports, [`alternate_player`] stands between Spotify Connect and the server, and
//! [`oggdirect`] downloads a track. None of them waits for anything: each is given
//! what has happened and says what to do next.
pub mod alternate_player;
pub mod channel;
pub mod digest;
pub mod http;
pub mod json;
pub mod lms;
pub mod oggdirect;
pub mod spotify_id;
