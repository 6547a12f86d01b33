//! Decoding of counter instructions: a tag byte followed by a fixed-width payload.
pub mod instructions;
pub mod laws;
