use semantic_index::indexer::EntryOutcome;
use semantic_index::scanner::{
    admit_content, file_extension, is_allowed_extension, is_hidden_name, screen_entry, Screening,
    MAX_CONTENT_BYTES,
};

#[test]
fn hidden_names_start_with_a_dot() {
    assert!(is_hidden_name(".hidden.md"));
    assert!(is_hidden_name(".git"));
    assert!(!is_hidden_name("a.md"));
    assert!(!is_hidden_name(""));
    assert!(!is_hidden_name("a.b"));
}

#[test]
fn extension_follows_the_last_dot() {
    assert_eq!(file_extension("a.md"), "md");
    assert_eq!(file_extension("archive.tar.gz"), "gz");
    assert_eq!(file_extension("Makefile"), "");
    assert_eq!(file_extension(".bashrc"), "");
    assert_eq!(file_extension("trailing."), "");
    assert_eq!(file_extension(".hidden.md"), "md");
    assert_eq!(file_extension(".."), "");
    assert_eq!(file_extension("naïve.txt"), "txt");
}

#[test]
fn allow_list_is_fixed() {
    for ext in ["rs", "js", "ts", "py", "md", "txt", "json", "toml", "yaml", "yml"] {
        assert!(is_allowed_extension(ext), "{}", ext);
    }
    for ext in ["bin", "", "RS", "mdx", "yamll", "exe", "r"] {
        assert!(!is_allowed_extension(ext), "{}", ext);
    }
}

#[test]
fn screening_order_and_outcomes() {
    assert_eq!(screen_entry(true, "src"), Screening::Skip(EntryOutcome::Directory));
    assert_eq!(screen_entry(true, "a.md"), Screening::Skip(EntryOutcome::Directory));
    assert_eq!(screen_entry(false, ".hidden.md"), Screening::Skip(EntryOutcome::Hidden));
    assert_eq!(screen_entry(false, "b.bin"), Screening::Skip(EntryOutcome::DisallowedExtension));
    assert_eq!(screen_entry(false, "README"), Screening::Skip(EntryOutcome::DisallowedExtension));
    assert_eq!(screen_entry(false, "a.md"), Screening::Read);
    assert_eq!(screen_entry(false, "main.rs"), Screening::Read);
}

#[test]
fn unreadable_content_is_skipped() {
    let r = admit_content("/d/a.md".to_string(), "a.md".to_string(), None);
    assert_eq!(r.err(), Some(EntryOutcome::Unreadable));
}

#[test]
fn size_ceiling_is_inclusive() {
    let at_limit = "x".repeat(MAX_CONTENT_BYTES);
    let rec = admit_content("/d/a.txt".to_string(), "a.txt".to_string(), Some(at_limit.clone()))
        .ok()
        .unwrap();
    assert_eq!(rec.byte_len, 50_000);
    assert_eq!(rec.content, at_limit);
    assert_eq!(rec.path, "/d/a.txt");
    assert_eq!(rec.file_name, "a.txt");

    let over = "x".repeat(MAX_CONTENT_BYTES + 1);
    let r = admit_content("/d/a.txt".to_string(), "a.txt".to_string(), Some(over));
    assert_eq!(r.err(), Some(EntryOutcome::Oversize));
}

#[test]
fn size_is_counted_in_bytes() {
    // 25,001 two-byte characters: 50,002 bytes.
    let wide = "é".repeat(25_001);
    let r = admit_content("/d/w.md".to_string(), "w.md".to_string(), Some(wide));
    assert_eq!(r.err(), Some(EntryOutcome::Oversize));

    let wide = "é".repeat(25_000);
    let rec = admit_content("/d/w.md".to_string(), "w.md".to_string(), Some(wide)).ok().unwrap();
    assert_eq!(rec.byte_len, 50_000);
}
