//! The embedding service.

pub mod output;
pub mod param;

use vstd::prelude::*;

verus! {

/// The path of the service.
pub const EMBEDDINGS_PATH: &'static str = "/services/embeddings/text-embedding/text-embedding";

} // verus!
