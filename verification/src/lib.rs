//! The core of a compact desktop audio player: playlists, the playback
//! session that decides what the audio backend is told to do, and the text
//! formats in which playlists and settings are kept.

pub mod media;
pub mod utils;
