use vstd::prelude::*;

use crate::embedding::SearchResult;
use crate::text::{snippet_of, truncate_content, SNIPPET_LENGTH};
use crate::vector_store;

verus! {

/// Number of results a search returns at most when the caller names none.
pub const DEFAULT_TOP_K: usize = 10;

/// The result limit of a search: `top_k`, or `DEFAULT_TOP_K` when absent.
pub fn result_limit(top_k: Option<usize>) -> (r: usize)
    ensures
        r == match top_k {
            Some(k) => k,
            None => DEFAULT_TOP_K,
        },
{
    match top_k {
        Some(k) => k,
        None => DEFAULT_TOP_K,
    }
}

/// The caller-facing form of a store hit: its path, a snippet of its content
/// and its score.
pub open spec fn shaped(hit: vector_store::SearchResult, result: SearchResult) -> bool {
    &&& result.path@ == hit.file_path@
    &&& result.snippet@ == snippet_of(hit.content@, SNIPPET_LENGTH as nat)
    &&& result.score_bits == hit.score_bits
}

/// Shapes the hits of a store search, best first as the store ordered them,
/// keeping at most `limit` of them.
pub fn shape_results(hits: &Vec<vector_store::SearchResult>, limit: usize) -> (r: Vec<SearchResult>)
    ensures
        r.len() == if hits.len() <= limit {
            hits.len()
        } else {
            limit
        },
        forall|i: int| 0 <= i < r.len() ==> shaped(#[trigger] hits[i], r[i]),
{
    let mut out: Vec<SearchResult> = Vec::new();
    let mut i: usize = 0;
    while i < hits.len() && i < limit
        invariant
            i <= hits.len(),
            i <= limit,
            out.len() == i,
            forall|j: int| 0 <= j < i ==> shaped(#[trigger] hits[j], out[j]),
        decreases hits.len() - i,
    {
        let hit = &hits[i];
        out.push(
            SearchResult {
                path: hit.file_path.clone(),
                snippet: truncate_content(hit.content.as_str(), SNIPPET_LENGTH),
                score_bits: hit.score_bits,
            },
        );
        i = i + 1;
    }
    out
}

/// A search never returns more results than its limit, `DEFAULT_TOP_K` when
/// the caller names none.
pub proof fn lemma_results_within_limit(
    hits: Seq<vector_store::SearchResult>,
    top_k: Option<usize>,
    limit: usize,
    results: Seq<SearchResult>,
)
    requires
        limit == match top_k {
            Some(k) => k,
            None => DEFAULT_TOP_K,
        },
        results.len() == if hits.len() <= limit {
            hits.len()
        } else {
            limit as nat
        },
    ensures
        results.len() <= limit,
        top_k is None ==> results.len() <= 10,
        hits.len() == 0 ==> results.len() == 0,
{
}

} // verus!
