//! Text insertion, global shortcuts and active-window detection.

pub mod inserter;
pub mod shortcut;
pub mod window;
