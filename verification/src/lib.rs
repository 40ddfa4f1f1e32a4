//! Verified core of a small Spotify Web API client.

pub mod api;
pub mod api_list;
pub mod error;
pub mod models;
pub mod text;
pub mod token;

pub use error::SpotifyError;
pub use models::{
    Album, Artist, Device, SearchResponse, SearchTracksPage, SpotifyDevicesResponse, SpotifyImage,
    SpotifyPlayback, SpotifyQueue, Track,
};
pub use token::{Timestamp, Token, TokenError};
