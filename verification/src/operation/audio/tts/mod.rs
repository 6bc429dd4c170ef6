//! Speech synthesis.

pub mod output;
pub mod param;
