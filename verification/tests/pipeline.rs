use sitegen::error::Error;
use sitegen::post::Post;
use sitegen::site::{recent_previews, sort_posts};
use sitegen::text::slug;
use sitegen::time::{timestamp_from_parts, timestamp_from_unix, Timestamp};

fn ts(secs: i64) -> Timestamp {
    Timestamp { secs, nanos: 0 }
}

const META_DOC: &str = "```metadata\ntitle = \"First Post\"\ncreated = 2023-01-01T00:00:00\nkeywords = [\"rust\", \"blog\"]\n```\nHello *world*\n";

#[test]
fn parse_idempotent() {
    let fs = Some(ts(1_700_000_000));
    let a = Post::parse("pages/posts/a.md", Some("a"), META_DOC, fs).unwrap();
    let b = Post::parse("pages/posts/a.md", Some("a"), META_DOC, fs).unwrap();
    assert_eq!(a.title, b.title);
    assert_eq!(a.body, b.body);
    assert_eq!(a.created, b.created);
    assert_eq!(a.modified, b.modified);
    assert_eq!(a.keywords, b.keywords);
    assert_eq!(a.metadata, b.metadata);
    assert_eq!(a.path, b.path);
}

#[test]
fn metadata_fields_resolved() {
    let fs = Some(ts(1_700_000_000));
    let p = Post::parse("pages/posts/a.md", Some("a"), META_DOC, fs).unwrap();
    assert_eq!(p.title, "First Post");
    // 2023-01-01T00:00:00 UTC
    assert_eq!(p.created, ts(1_672_531_200));
    // modified falls back to the file creation time
    assert_eq!(p.modified, ts(1_700_000_000));
    assert_eq!(p.keywords, vec!["rust".to_string(), "blog".to_string()]);
    // the metadata block is excluded from the rendered body
    assert!(p.body.contains("<em>world</em>"));
    assert!(!p.body.contains("First Post"));
}

#[test]
fn no_metadata_fallback() {
    let fs = Some(ts(123_456));
    let p = Post::parse("pages/posts/second-post.md", Some("second-post"), "Just a *body*.\n", fs)
        .unwrap();
    assert_eq!(p.title, "second-post");
    assert_eq!(p.created, ts(123_456));
    assert_eq!(p.modified, ts(123_456));
    assert!(p.keywords.is_empty());
    assert!(p.metadata.is_empty());
    assert!(p.body.contains("<em>body</em>"));
}

#[test]
fn no_stem_placeholder_title() {
    let fs = Some(ts(1));
    let p = Post::parse("pages/posts/x.md", None, "body\n", fs).unwrap();
    assert_eq!(p.title, "Title not found!");
}

#[test]
fn metadata_span_exact_bytes() {
    let doc = "```metadata\ntitle = \"has *stars* and _underscores_\"\ncustom = \"kept > verbatim\"\n```\nBody\n";
    let p = Post::parse("p.md", Some("p"), doc, Some(ts(9))).unwrap();
    assert_eq!(p.title, "has *stars* and _underscores_");
    let custom = p.metadata.get("custom").and_then(|v| v.as_str());
    assert_eq!(custom, Some("kept > verbatim"));
}

#[test]
fn empty_metadata_block() {
    let doc = "```metadata\n```\nHello\n";
    let p = Post::parse("p.md", Some("p"), doc, Some(ts(77))).unwrap();
    assert!(p.metadata.is_empty());
    assert_eq!(p.title, "p");
    assert_eq!(p.created, ts(77));
    assert!(p.body.contains("Hello"));
}

#[test]
fn slug_examples() {
    // punctuation is ASCII-graphic, so it is kept by the character-class
    // filter; only spaces turn into hyphens and non-graphic characters vanish
    assert_eq!(slug("Hello, World!"), "hello,-world!");
    assert_eq!(slug("  spaces   and--dashes "), "--spaces---and--dashes-");
    // reproducible bit for bit
    assert_eq!(slug("Hello, World!"), slug("Hello, World!"));
    // non-ASCII characters vanish instead of becoming separators
    assert_eq!(slug("caf\u{e9} au lait"), "caf-au-lait");
}

#[test]
fn url_path_shape() {
    let p = Post::parse("p.md", Some("p"), META_DOC, Some(ts(1))).unwrap();
    assert_eq!(p.url_path(), "posts//first-post.html");
    assert_eq!(p.publish_path(), "publish/posts//first-post.html");
}

#[test]
fn sort_and_preview_order() {
    let fs = Some(ts(5));
    let d1 = "```metadata\ntitle = \"One\"\ncreated = 2021-01-01T00:00:00\nmodified = 2021-01-01T00:00:00\n```\nx\n";
    let d2 = "```metadata\ntitle = \"Two\"\ncreated = 2022-01-01T00:00:00\nmodified = 2022-01-01T00:00:00\n```\nx\n";
    let d3 = "```metadata\ntitle = \"Three\"\ncreated = 2023-01-01T00:00:00\nmodified = 2023-01-01T00:00:00\n```\nx\n";
    let mut posts = vec![
        Post::parse("b.md", Some("b"), d2, fs).unwrap(),
        Post::parse("c.md", Some("c"), d3, fs).unwrap(),
        Post::parse("a.md", Some("a"), d1, fs).unwrap(),
    ];
    sort_posts(&mut posts);
    assert_eq!(posts[0].title, "One");
    assert_eq!(posts[1].title, "Two");
    assert_eq!(posts[2].title, "Three");
    // the landing page takes the first ten of the ascending order: the
    // oldest entry comes first, not the most recent
    let previews = recent_previews(&posts);
    assert_eq!(previews.len(), 3);
    assert_eq!(previews[0].title, "One");
    assert_eq!(previews[2].title, "Three");
    assert_eq!(previews[0].link, "posts//one.html");
}

#[test]
fn preview_caps_at_ten() {
    let fs = Some(ts(5));
    let mut posts = Vec::new();
    for i in 0..12 {
        let doc = "body\n";
        let stem = format!("post-{i}");
        posts.push(Post::parse("x.md", Some(stem.as_str()), doc, fs).unwrap());
    }
    let previews = recent_previews(&posts);
    assert_eq!(previews.len(), 10);
}

#[test]
fn malformed_date_aborts() {
    // day 32 is rejected while the metadata block is parsed
    let doc = "```metadata\ncreated = 2023-01-32T00:00:00\n```\nx\n";
    let r = Post::parse("p.md", Some("p"), doc, Some(ts(1)));
    assert!(r.is_err());
    assert!(matches!(r, Err(Error::Toml(_))));
    // a date without a time of day is not a valid instant; it must not
    // silently fall back to the filesystem time
    let doc2 = "```metadata\ncreated = 2023-01-05\n```\nx\n";
    let r2 = Post::parse("p.md", Some("p"), doc2, Some(ts(1)));
    assert!(matches!(r2, Err(Error::BadTimestamp)));
}

#[test]
fn timestamp_parts_validity() {
    assert_eq!(timestamp_from_parts(2023, 1, 1, 0, 0, 0), Some(ts(1_672_531_200)));
    assert_eq!(timestamp_from_parts(1970, 1, 1, 0, 0, 0), Some(ts(0)));
    assert_eq!(timestamp_from_parts(1969, 12, 31, 23, 59, 59), Some(ts(-1)));
    // leap-year rules
    assert!(timestamp_from_parts(2024, 2, 29, 0, 0, 0).is_some());
    assert_eq!(timestamp_from_parts(2023, 2, 29, 0, 0, 0), None);
    assert_eq!(timestamp_from_parts(1900, 2, 29, 0, 0, 0), None);
    assert!(timestamp_from_parts(2000, 2, 29, 0, 0, 0).is_some());
    assert_eq!(timestamp_from_parts(2023, 1, 32, 0, 0, 0), None);
    assert_eq!(timestamp_from_parts(2023, 13, 1, 0, 0, 0), None);
    assert_eq!(timestamp_from_parts(2023, 1, 1, 24, 0, 0), None);
}

#[test]
fn timestamp_unix_conversion() {
    assert_eq!(timestamp_from_unix(42, 7), Some(Timestamp { secs: 42, nanos: 7 }));
    assert_eq!(timestamp_from_unix(u64::MAX, 0), None);
}

#[test]
fn broken_reference_link_fails_run() {
    let doc = "see [text][missing] here\n";
    let r = Post::parse("p.md", Some("p"), doc, Some(ts(1)));
    assert!(matches!(r, Err(Error::BrokenLink)));
}

#[test]
fn non_string_keywords_dropped() {
    let doc = "```metadata\nkeywords = [\"a\", 3, \"b\"]\n```\nx\n";
    let p = Post::parse("p.md", Some("p"), doc, Some(ts(1))).unwrap();
    assert_eq!(p.keywords, vec!["a".to_string(), "b".to_string()]);
}

#[test]
fn wrong_typed_fields_fall_back() {
    let doc = "```metadata\ntitle = 7\ncreated = \"not a date\"\nkeywords = \"not-an-array\"\n```\nx\n";
    let p = Post::parse("p.md", Some("stem"), doc, Some(ts(9))).unwrap();
    assert_eq!(p.title, "stem");
    assert_eq!(p.created, ts(9));
    assert!(p.keywords.is_empty());
    // the ill-typed fields are still kept verbatim in the table
    assert!(p.metadata.get("title").is_some());
    assert!(p.metadata.get("created").is_some());
}

#[test]
fn modified_from_metadata_created_falls_back() {
    let doc = "```metadata\nmodified = 2022-05-05T05:05:05\n```\nx\n";
    let p = Post::parse("p.md", Some("p"), doc, Some(ts(100))).unwrap();
    assert_eq!(p.created, ts(100));
    assert_eq!(p.modified, timestamp_from_parts(2022, 5, 5, 5, 5, 5).unwrap());
}

#[test]
fn fs_time_consulted_only_when_needed() {
    // both timestamps in the metadata: the filesystem time is never consulted
    let doc = "```metadata\ncreated = 2020-01-01T00:00:00\nmodified = 2020-01-01T00:00:00\n```\nx\n";
    assert!(Post::parse("p.md", Some("p"), doc, None).is_ok());
    // no metadata: the missing filesystem time aborts the run
    let r = Post::parse("p.md", Some("p"), "x\n", None);
    assert!(matches!(r, Err(Error::FsTime)));
}

#[test]
fn timestamps_read_as_utc_wall_clock() {
    // an explicit offset is ignored: timestamps are read as UTC wall-clock time
    let plain = "```metadata\ncreated = 2023-01-01T00:00:00\nmodified = 2023-01-01T00:00:00\n```\nx\n";
    let zulu = "```metadata\ncreated = 2023-01-01T00:00:00Z\nmodified = 2023-01-01T00:00:00Z\n```\nx\n";
    let a = Post::parse("p.md", Some("p"), plain, None).unwrap();
    let b = Post::parse("p.md", Some("p"), zulu, None).unwrap();
    assert_eq!(a.created, b.created);
    assert_eq!(a.created, ts(1_672_531_200));
}

#[test]
fn end_to_end_two_documents() {
    let d1 = "```metadata\ntitle = \"First Post\"\ncreated = 2023-01-01T00:00:00\nmodified = 2023-01-01T00:00:00\n```\nfirst body\n";
    let d2 = "no metadata *here*\n";
    let p1 = Post::parse("pages/posts/first.md", Some("first"), d1, None).unwrap();
    let p2 = Post::parse(
        "pages/posts/second-post.md",
        Some("second-post"),
        d2,
        Some(ts(1_672_531_300)),
    )
    .unwrap();
    let mut posts = vec![p2, p1];
    sort_posts(&mut posts);
    assert_eq!(posts[0].title, "First Post");
    assert_eq!(posts[1].title, "second-post");
    assert_eq!(posts[0].url_path(), "posts//first-post.html");
    assert_eq!(posts[1].url_path(), "posts//second-post.html");
    let previews = recent_previews(&posts);
    assert_eq!(previews.len(), 2);
    assert_eq!(previews[0].title, "First Post");
    assert_eq!(previews[1].title, "second-post");
}
