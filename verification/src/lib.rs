//! Keeps the lyrics on screen in step with the song that is playing.
//!
//! One shared state says what is playing and how far its lyrics have come.
//! A background loop writes it: it takes samples from the player, starts a
//! fetch for each new song and commits the state in which the fetch ends.
//! The window reads it without ever waiting, and shows what has changed.

pub mod app_state;
pub mod application;
pub mod lyrics;
pub mod markup;
pub mod reconcile;
pub mod shared_state;
pub mod spotify;
pub mod text;
pub mod ui;
