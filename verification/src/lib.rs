//! Tracks the anime or manga that is playing on this machine: recognises a
//! title and a progress number in window titles, finds the matching entry of
//! the user's tracked lists, and queues the progress update for the remote
//! list service.

pub mod anilist;
pub mod app;
pub mod media;
pub mod recognition;
pub mod settings;
pub mod text;
pub mod ui;
