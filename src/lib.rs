//! Resolution and download planning for game mods published on a remote
//! catalog, and the supervision rules for the game server that uses them.

pub mod auth;
pub mod catalog;
pub mod error;
pub mod mods;
pub mod supervisor;
pub mod urls;
