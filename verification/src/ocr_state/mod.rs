//! What the text recognition that reads the captured regions reports back.

pub mod error;
