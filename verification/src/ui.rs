//! What the window shows, as far as the logic decides it.

pub mod components;
