//! The terminal engine's side of the library: its input model.
pub mod input;
