//! Values handed across the HTTP boundary.

pub mod new_game;
