//! Typed conversion between the registry's tagged word buffers and host values.
pub mod laws;
pub mod types;
pub mod utf16;
