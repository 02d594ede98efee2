use semantic_index::embedding::{
    accept_remote_vector, fallback_sample_codes, generate_sample_codes, EMBEDDING_DIMENSION,
};
use semantic_index::search::{result_limit, shape_results, DEFAULT_TOP_K};
use semantic_index::text::truncate_content;
use semantic_index::vector_store::SearchResult;

fn hit(path: &str, content: &str, score: f32) -> SearchResult {
    SearchResult::from_payload(Some(path.to_string()), Some(content.to_string()), score.to_bits())
}

#[test]
fn snippet_keeps_short_content() {
    assert_eq!(truncate_content("", 100), "");
    assert_eq!(truncate_content("short", 100), "short");
    let exact = "a".repeat(100);
    assert_eq!(truncate_content(&exact, 100), exact);
}

#[test]
fn snippet_cuts_long_content() {
    let long = "b".repeat(101);
    assert_eq!(truncate_content(&long, 100), format!("{}...", "b".repeat(100)));
    let text: String = (0..250).map(|i| char::from(b'a' + (i % 26) as u8)).collect();
    let expected: String = text.chars().take(100).collect::<String>() + "...";
    assert_eq!(truncate_content(&text, 100), expected);
}

#[test]
fn snippet_counts_characters() {
    let wide = "é".repeat(150);
    assert_eq!(truncate_content(&wide, 100), format!("{}...", "é".repeat(100)));
    let wide = "日".repeat(100);
    assert_eq!(truncate_content(&wide, 100), wide);
}

#[test]
fn default_limit_is_ten() {
    assert_eq!(result_limit(None), 10);
    assert_eq!(DEFAULT_TOP_K, 10);
    assert_eq!(result_limit(Some(3)), 3);
    assert_eq!(result_limit(Some(0)), 0);
}

#[test]
fn results_never_exceed_limit() {
    let hits: Vec<SearchResult> =
        (0..15).map(|i| hit(&format!("/f{}.md", i), "text", 0.9)).collect();
    assert_eq!(shape_results(&hits, result_limit(None)).len(), 10);
    assert_eq!(shape_results(&hits, 4).len(), 4);
    assert_eq!(shape_results(&hits, 20).len(), 15);
}

#[test]
fn results_keep_order_path_and_score() {
    let long = "c".repeat(120);
    let hits = vec![hit("/a.md", &long, 0.95), hit("/b.md", "tiny", 0.7)];
    let out = shape_results(&hits, 10);
    assert_eq!(out.len(), 2);
    assert_eq!(out[0].path, "/a.md");
    assert_eq!(out[0].snippet, format!("{}...", "c".repeat(100)));
    assert_eq!(f32::from_bits(out[0].score_bits), 0.95);
    assert_eq!(out[1].path, "/b.md");
    assert_eq!(out[1].snippet, "tiny");
    assert!(f32::from_bits(out[1].score_bits) >= 0.7);
}

#[test]
fn empty_collection_gives_empty_results() {
    let out = shape_results(&Vec::new(), result_limit(None));
    assert!(out.is_empty());
}

#[test]
fn missing_payload_fields_get_defaults() {
    let r = SearchResult::from_payload(None, None, 0.8f32.to_bits());
    assert_eq!(r.file_path, "unknown");
    assert_eq!(r.content, "");
    assert_eq!(f32::from_bits(r.score_bits), 0.8);
}

#[test]
fn fallback_codes_are_deterministic() {
    let a = fallback_sample_codes("hello world");
    let b = fallback_sample_codes("hello world");
    assert_eq!(a, b);
    assert_eq!(a.len(), EMBEDDING_DIMENSION);
    assert!(a.iter().all(|c| *c < 1000));
    let c = fallback_sample_codes("another text");
    assert_ne!(a, c);
}

#[test]
fn recurrence_from_a_known_seed() {
    let codes = generate_sample_codes(0);
    // 0 * 1103515245 + 12345 = 12345; then 12345 * 1103515245 + 12345.
    assert_eq!(codes[0], 345);
    let second = 12345u64.wrapping_mul(1103515245).wrapping_add(12345);
    assert_eq!(codes[1], second % 1000);
    assert_eq!(codes.len(), 384);
}

#[test]
fn fallback_vector_has_unit_length() {
    for text in ["hello", "a", "some longer text with several words"] {
        let v: Vec<f32> =
            fallback_sample_codes(text).iter().map(|c| *c as f32 / 1000.0 - 0.5).collect();
        let norm: f32 = v.iter().map(|x| x * x).sum::<f32>().sqrt();
        assert!(norm > 0.0);
        let unit: Vec<f32> = v.iter().map(|x| x / norm).collect();
        let n2: f32 = unit.iter().map(|x| x * x).sum::<f32>().sqrt();
        assert!((n2 - 1.0).abs() < 1e-4);
        assert!(unit.iter().all(|x| x.abs() <= 1.0));
    }
}

#[test]
fn remote_vector_must_have_full_dimension() {
    assert!(accept_remote_vector(Some(384)));
    assert!(!accept_remote_vector(Some(1536)));
    assert!(!accept_remote_vector(Some(0)));
    assert!(!accept_remote_vector(None));
}
