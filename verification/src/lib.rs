//! Core of a desktop music-player shell: a presence synchronization engine
//! (normalization, change detection, payload framing, send/retry protocol)
//! and a download path redirection service.

pub mod download;
pub mod engine;
pub mod json;
pub mod protocol;
pub mod text;
pub mod tracker;
