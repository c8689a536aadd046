//! Glyph-art recording pipeline: the logic of a recorder that turns camera
//! frames into text art, buffers microphone samples, and coordinates one
//! recording session at a time.

pub mod audio;
pub mod glyph;
pub mod mux;
pub mod pacing;
pub mod ring;
pub mod session;
pub mod worker;
