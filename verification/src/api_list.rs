//! The addresses of Spotify's accounts service and Web API.

use vstd::prelude::*;

verus! {

pub const CALLBACKURL: &'static str = "http://127.0.0.1:8080/callback";

/// Where the local callback listener runs; a request's path is read against it.
pub const CALLBACK_ORIGIN: &'static str = "http://127.0.0.1:8080";

pub const AUTHORIZE: &'static str = "https://accounts.spotify.com/authorize";

pub const TOKENAPI: &'static str = "https://accounts.spotify.com/api/token";

/// The permissions asked for at login.
pub const SCOPES: &'static str = "user-modify-playback-state user-read-playback-state user-read-currently-playing";

pub const PLAYER_BASE: &'static str = "https://api.spotify.com/v1/me/player";

// GET
pub const PLAYER_STATUS: &'static str = PLAYER_BASE;

pub const CURRENT_STATUS: &'static str = "https://api.spotify.com/v1/me/player/currently-playing";

pub const PLAYER_QUEUE: &'static str = "https://api.spotify.com/v1/me/player/queue";

pub const PLAYER_DEVICES: &'static str = "https://api.spotify.com/v1/me/player/devices";

pub const SEARCH: &'static str = "https://api.spotify.com/v1/search";

// PUT
pub const PLAYER_PAUSE: &'static str = "https://api.spotify.com/v1/me/player/pause";

pub const PLAYER_PLAY: &'static str = "https://api.spotify.com/v1/me/player/play";

pub const PLAYER_VOLUME: &'static str = "https://api.spotify.com/v1/me/player/volume";

// POST
pub const PLAYER_NEXT: &'static str = "https://api.spotify.com/v1/me/player/next";

pub const PLAYER_PREVIOUS: &'static str = "https://api.spotify.com/v1/me/player/previous";

pub const PLAYER_QUEUE_ADD: &'static str = "https://api.spotify.com/v1/me/player/queue";

} // verus!
