use vstd::prelude::*;

verus! {

/// Number of components of every embedding vector of the collection.
pub const EMBEDDING_DIMENSION: usize = 384;

/// Multiplier of the fallback generator's linear congruential recurrence.
pub const LCG_MULTIPLIER: u64 = 1103515245;

/// Increment of the fallback generator's linear congruential recurrence.
pub const LCG_INCREMENT: u64 = 12345;

/// Resolution of the fallback samples: each one is a code in `0..SAMPLE_RESOLUTION`,
/// standing for the value `code / SAMPLE_RESOLUTION - 0.5` in `[-0.5, 0.5)`.
pub const SAMPLE_RESOLUTION: u64 = 1000;

/// The 64-bit hash that `DefaultHasher::new()` gives a text.
pub uninterp spec fn text_hash(text: Seq<char>) -> u64;

/// Relies on `BuildHasher::hash_one` over `BuildHasherDefault<DefaultHasher>`:
/// hashes the text with a `DefaultHasher` made by `new`, which std documents to
/// hash alike in every instance made that way, so the result depends on the
/// text alone.
#[verifier::external_body]
fn hash_text(text: &str) -> (r: u64)
    ensures
        r == text_hash(text@),
{
    std::hash::BuildHasher::hash_one(
        &std::hash::BuildHasherDefault::<std::collections::hash_map::DefaultHasher>::default(),
        text,
    )
}

/// One step of the recurrence, modulo 2^64.
pub open spec fn lcg_step(state: u64) -> u64 {
    ((state as nat * LCG_MULTIPLIER as nat + LCG_INCREMENT as nat) % 0x1_0000_0000_0000_0000) as u64
}

/// The state after `n` steps from `seed`.
pub open spec fn lcg_state(seed: u64, n: nat) -> u64
    decreases n,
{
    if n == 0 {
        seed
    } else {
        lcg_step(lcg_state(seed, (n - 1) as nat))
    }
}

/// The `i`-th sample code drawn from `seed`: the state after `i + 1` steps,
/// reduced to `0..SAMPLE_RESOLUTION`.
pub open spec fn sample_code(seed: u64, i: nat) -> u64 {
    lcg_state(seed, i + 1) % SAMPLE_RESOLUTION
}

/// The codes of the fallback vector drawn from `seed`, one per component.
pub open spec fn sample_codes(seed: u64) -> Seq<u64> {
    Seq::new(EMBEDDING_DIMENSION as nat, |i: int| sample_code(seed, i as nat))
}

/// The codes of the fallback vector of a text, before scaling and normalisation.
pub open spec fn fallback_codes_of(text: Seq<char>) -> Seq<u64> {
    sample_codes(text_hash(text))
}

fn lcg_next(state: u64) -> (r: u64)
    ensures
        r == lcg_step(state),
{
    let r = state.wrapping_mul(LCG_MULTIPLIER).wrapping_add(LCG_INCREMENT);
    proof {
        let m = 0x1_0000_0000_0000_0000int;
        let p = (state as nat * LCG_MULTIPLIER as nat) as int;
        vstd::arithmetic::div_mod::lemma_add_mod_noop(p, LCG_INCREMENT as int, m);
        vstd::arithmetic::div_mod::lemma_add_mod_noop(p % m, LCG_INCREMENT as int, m);
        vstd::arithmetic::div_mod::lemma_mod_twice(p, m);
    }
    r
}

/// The sample codes drawn from `seed` by the recurrence, one per component.
pub fn generate_sample_codes(seed: u64) -> (r: Vec<u64>)
    ensures
        r@ == sample_codes(seed),
        forall|i: int| 0 <= i < r.len() ==> #[trigger] r[i] < SAMPLE_RESOLUTION,
{
    let mut codes: Vec<u64> = Vec::with_capacity(EMBEDDING_DIMENSION);
    let mut state = seed;
    let mut n: usize = 0;
    while n < EMBEDDING_DIMENSION
        invariant
            n <= EMBEDDING_DIMENSION,
            codes.len() == n,
            state == lcg_state(seed, n as nat),
            forall|i: int| 0 <= i < n ==> #[trigger] codes[i] == sample_code(seed, i as nat),
        decreases EMBEDDING_DIMENSION - n,
    {
        state = lcg_next(state);
        codes.push(state % SAMPLE_RESOLUTION);
        n = n + 1;
    }
    assert(codes@ =~= sample_codes(seed));
    codes
}

/// The sample codes of the deterministic fallback embedding of `text`. The
/// vector itself is `code / SAMPLE_RESOLUTION - 0.5` for each code, scaled to
/// unit Euclidean length unless every component is zero.
pub fn fallback_sample_codes(text: &str) -> (r: Vec<u64>)
    ensures
        r@ == fallback_codes_of(text@),
        r.len() == EMBEDDING_DIMENSION,
        forall|i: int| 0 <= i < r.len() ==> #[trigger] r[i] < SAMPLE_RESOLUTION,
{
    let seed = hash_text(text);
    generate_sample_codes(seed)
}

/// The fallback embedding is deterministic: two calls on the same text give the
/// same codes, and so the same vector.
pub proof fn lemma_fallback_deterministic(text: Seq<char>, first: Seq<u64>, second: Seq<u64>)
    requires
        first == fallback_codes_of(text),
        second == fallback_codes_of(text),
    ensures
        first == second,
        first.len() == EMBEDDING_DIMENSION,
{
}

/// Whether a vector returned by the remote embedding backend is used: only one
/// of exactly `EMBEDDING_DIMENSION` components is. On a failed call
/// (`None`) or a malformed answer the caller falls back to the deterministic
/// generator.
pub fn accept_remote_vector(vector_len: Option<usize>) -> (r: bool)
    ensures
        r == (vector_len == Some(EMBEDDING_DIMENSION)),
{
    match vector_len {
        Some(n) => n == EMBEDDING_DIMENSION,
        None => false,
    }
}

/// A search as the user interface asks for it.
pub struct SearchRequest {
    pub query: String,
    /// How many results at most; `DEFAULT_TOP_K` when absent.
    pub top_k: Option<usize>,
}

/// A search result in the shape handed to the user interface.
pub struct SearchResult {
    pub path: String,
    /// At most the first `SNIPPET_LENGTH` characters of the file, followed by
    /// `"..."` when it was cut.
    pub snippet: String,
    /// Bit pattern of the similarity score, an IEEE 754 single-precision number
    /// in the store's native scale.
    pub score_bits: u32,
}

} // verus!
