use spoolman::dbcache::{
    after_fetch, first_step, is_fresh, CacheInfo, FetchOutcome, LoadResult, LoadStep,
    CACHE_TTL_MS,
};

#[test]
fn freshness_window() {
    assert_eq!(CACHE_TTL_MS, 24 * 60 * 60 * 1000);
    assert!(is_fresh(1_000, 1_000));
    assert!(is_fresh(1_000 + CACHE_TTL_MS - 1, 1_000));
    assert!(!is_fresh(1_000 + CACHE_TTL_MS, 1_000));
    // A clock that went back keeps the copy fresh.
    assert!(is_fresh(5, 1_000));
}

#[test]
fn first_step_uses_fresh_cache_or_asks_conditionally() {
    let cache = CacheInfo { fetched_at_ms: 10, etag: "\"abc\"".to_string() };
    assert!(matches!(first_step(Some(&cache), 20), LoadStep::ServeCache));
    match first_step(Some(&cache), 10 + CACHE_TTL_MS) {
        LoadStep::Fetch { if_none_match: Some(t) } => assert_eq!(t, "\"abc\""),
        other => panic!("unexpected {other:?}"),
    }
    let untagged = CacheInfo { fetched_at_ms: 0, etag: String::new() };
    assert!(matches!(
        first_step(Some(&untagged), CACHE_TTL_MS),
        LoadStep::Fetch { if_none_match: None }
    ));
    assert!(matches!(first_step(None, 0), LoadStep::Fetch { if_none_match: None }));
}

#[test]
fn outcomes_with_a_cache() {
    assert!(matches!(after_fetch(true, FetchOutcome::NotModified), LoadResult::ServeCacheTouched));
    assert!(matches!(after_fetch(true, FetchOutcome::Unparsable("x".into())), LoadResult::ServeCache));
    assert!(matches!(after_fetch(true, FetchOutcome::Status(500)), LoadResult::ServeCache));
    assert!(matches!(after_fetch(true, FetchOutcome::Failed("offline".into())), LoadResult::ServeCache));
    match after_fetch(true, FetchOutcome::Fetched { etag: "v2".into() }) {
        LoadResult::ServeFetched { etag } => assert_eq!(etag, "v2"),
        other => panic!("unexpected {other:?}"),
    }
}

#[test]
fn outcomes_without_a_cache() {
    let fail = |o| match after_fetch(false, o) {
        LoadResult::Fail(m) => m,
        other => panic!("unexpected {other:?}"),
    };
    assert_eq!(fail(FetchOutcome::NotModified), "Received 304 but no cache exists");
    assert_eq!(fail(FetchOutcome::Unparsable("EOF".into())), "Failed to parse SpoolmanDB: EOF");
    assert_eq!(fail(FetchOutcome::Status(503)), "SpoolmanDB returned HTTP 503");
    assert_eq!(fail(FetchOutcome::Failed("offline".into())), "Failed to fetch SpoolmanDB: offline");
    assert!(matches!(
        after_fetch(false, FetchOutcome::Fetched { etag: String::new() }),
        LoadResult::ServeFetched { .. }
    ));
}
