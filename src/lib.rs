//! Semantic indexing of a directory of text files: which files a scan takes,
//! the counts an indexing run reports, the deterministic fallback embedding,
//! the metadata stored with each vector, and the shaping of search results.
//! Reading files, talking to the embedding backend and to the vector database
//! are left to the caller, who hands the outcomes to these functions.
use vstd::prelude::*;

pub mod embedding;
pub mod indexer;
pub mod scanner;
pub mod search;
pub mod text;
pub mod vector_store;

verus! {

} // verus!
