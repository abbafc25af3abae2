//! Browser and playback state for a terminal music player, with the rules
//! that decide what the browser shows and what the player is told to do.

pub mod app;
pub mod art;
pub mod laws;
pub mod library;
pub mod paths;
pub mod state;
pub mod text;
pub mod ui;
