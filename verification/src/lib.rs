//! A satirical terminal game about the things you should not care about in 2026.
//!
//! The library holds the game's logic: the player profile and its clamped
//! aspects, the progress record, the input prompts as state machines, the
//! segments, the Oracle verdict and the menu text.
pub mod state;
pub mod text;
pub mod input;
pub mod oracle;
pub mod segments;
pub mod ui;
pub mod session;
