//! The verified core of `spotty`, a command-line client for Spotify.
//!
//! The library decides everything the client does: what it sends, what it makes of each
//! reply, what it prints and when it stops. The program around it performs the actions that a
//! [`session::Session`] asks for, and hands back what came of them.

pub mod api;
pub mod auth;
pub mod laws;
pub mod model;
pub mod pkce;
pub mod playlists;
pub mod requests;
pub mod session;
pub mod steps;
pub mod text;
pub mod tracks;
