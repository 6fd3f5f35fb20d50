//! When the browser reuses its cached copy of SpoolmanDB and when it asks the
//! server again: the decisions of the cache, apart from the storage and the
//! request themselves.
use vstd::prelude::*;
use crate::text::{decimal, decimal_chars, push_str, string_from_chars};

verus! {

/// How long a cached copy stays fresh: 24 hours, in milliseconds.
pub const CACHE_TTL_MS: u64 = 86_400_000;

/// What is known of the cached copy besides its entries.
#[derive(Debug)]
pub struct CacheInfo {
    /// When the copy was last fetched or confirmed, in ms since the Unix epoch.
    pub fetched_at_ms: u64,
    /// The `ETag` of the response it came from (empty when there was none).
    pub etag: String,
}

/// The first thing to do when the database is wanted.
#[derive(Debug)]
pub enum LoadStep {
    /// Use the cached entries as they are.
    ServeCache,
    /// Request the database, with `If-None-Match` set to the given tag, if any.
    Fetch { if_none_match: Option<String> },
}

/// How the request went.
#[derive(Debug)]
pub enum FetchOutcome {
    /// `304 Not Modified`.
    NotModified,
    /// `200` with a body that parsed, and the response's `ETag` (empty when absent).
    Fetched { etag: String },
    /// `200` with a body that did not parse; the parser's message.
    Unparsable(String),
    /// Any other status.
    Status(u16),
    /// The request failed; its message.
    Failed(String),
}

/// What to do with the outcome.
#[derive(Debug)]
pub enum LoadResult {
    /// Use the cached entries and store them again, stamped with the current time.
    ServeCacheTouched,
    /// Use the cached entries unchanged.
    ServeCache,
    /// Use the fetched entries and cache them with this tag, stamped with the current time.
    ServeFetched { etag: String },
    /// Nothing to show: report this message.
    Fail(String),
}

/// A copy fetched at `fetched_at` is still fresh at `now` (a clock that went
/// back counts as fresh).
pub open spec fn spec_is_fresh(now: u64, fetched_at: u64) -> bool {
    now - fetched_at < CACHE_TTL_MS
}

/// Whether the cached copy fetched at `fetched_at_ms` is fresh at `now_ms`.
pub fn is_fresh(now_ms: u64, fetched_at_ms: u64) -> (r: bool)
    ensures
        r == spec_is_fresh(now_ms, fetched_at_ms),
{
    now_ms < fetched_at_ms || now_ms - fetched_at_ms < CACHE_TTL_MS
}

/// The first step: a fresh cached copy is used as it is; otherwise the
/// database is requested, conditionally on the cached copy's tag when it has one.
pub fn first_step(cache: Option<&CacheInfo>, now_ms: u64) -> (r: LoadStep)
    ensures
        match cache {
            Some(c) => if spec_is_fresh(now_ms, c.fetched_at_ms) {
                r is ServeCache
            } else if c.etag@.len() > 0 {
                r matches LoadStep::Fetch { if_none_match: Some(t) } && t@ == c.etag@
            } else {
                r matches LoadStep::Fetch { if_none_match: None }
            },
            None => r matches LoadStep::Fetch { if_none_match: None },
        },
{
    match cache {
        Some(c) => {
            if is_fresh(now_ms, c.fetched_at_ms) {
                LoadStep::ServeCache
            } else if c.etag.as_str().unicode_len() > 0 {
                LoadStep::Fetch { if_none_match: Some(c.etag.clone()) }
            } else {
                LoadStep::Fetch { if_none_match: None }
            }
        },
        None => LoadStep::Fetch { if_none_match: None },
    }
}

/// The message for a 304 answer when nothing is cached.
pub open spec fn no_cache_message() -> Seq<char> {
    "Received 304 but no cache exists"@
}

/// The message for a body that did not parse.
pub open spec fn parse_failure_message(e: Seq<char>) -> Seq<char> {
    "Failed to parse SpoolmanDB: "@ + e
}

/// The message for an unexpected status.
pub open spec fn status_message(status: u16) -> Seq<char> {
    "SpoolmanDB returned HTTP "@ + decimal(status as nat)
}

/// The message for a failed request.
pub open spec fn fetch_failure_message(e: Seq<char>) -> Seq<char> {
    "Failed to fetch SpoolmanDB: "@ + e
}

/// `prefix` followed by `rest`, as a `String`.
fn message(prefix: &str, rest: &Vec<char>) -> (r: String)
    ensures
        r@ == prefix@ + rest@,
{
    let mut out: Vec<char> = Vec::new();
    push_str(&mut out, prefix);
    let ghost start = out@;
    let mut i: usize = 0;
    while i < rest.len()
        invariant
            i <= rest.len(),
            out@ == start + rest@.take(i as int),
        decreases rest.len() - i,
    {
        out.push(rest[i]);
        i = i + 1;
        assert(out@ =~= start + rest@.take(i as int));
    }
    assert(rest@.take(rest.len() as int) =~= rest@);
    string_from_chars(&out)
}

/// What to do once the request has an outcome, given whether a cached copy exists:
/// a 304 reuses the cache (refreshing its stamp); a parsed 200 replaces it; any
/// failure falls back to the stale cache, and without one is reported.
pub fn after_fetch(has_cache: bool, outcome: FetchOutcome) -> (r: LoadResult)
    ensures
        match outcome {
            FetchOutcome::NotModified => if has_cache {
                r is ServeCacheTouched
            } else {
                r matches LoadResult::Fail(m) && m@ == no_cache_message()
            },
            FetchOutcome::Fetched { etag } => r matches LoadResult::ServeFetched { etag: t } && t@
                == etag@,
            FetchOutcome::Unparsable(e) => if has_cache {
                r is ServeCache
            } else {
                r matches LoadResult::Fail(m) && m@ == parse_failure_message(e@)
            },
            FetchOutcome::Status(s) => if has_cache {
                r is ServeCache
            } else {
                r matches LoadResult::Fail(m) && m@ == status_message(s)
            },
            FetchOutcome::Failed(e) => if has_cache {
                r is ServeCache
            } else {
                r matches LoadResult::Fail(m) && m@ == fetch_failure_message(e@)
            },
        },
{
    match outcome {
        FetchOutcome::NotModified => {
            if has_cache {
                LoadResult::ServeCacheTouched
            } else {
                LoadResult::Fail("Received 304 but no cache exists".to_owned())
            }
        },
        FetchOutcome::Fetched { etag } => LoadResult::ServeFetched { etag },
        FetchOutcome::Unparsable(e) => {
            if has_cache {
                LoadResult::ServeCache
            } else {
                let rest = crate::text::chars_of(e.as_str());
                LoadResult::Fail(message("Failed to parse SpoolmanDB: ", &rest))
            }
        },
        FetchOutcome::Status(s) => {
            if has_cache {
                LoadResult::ServeCache
            } else {
                let rest = decimal_chars(s as u32);
                LoadResult::Fail(message("SpoolmanDB returned HTTP ", &rest))
            }
        },
        FetchOutcome::Failed(e) => {
            if has_cache {
                LoadResult::ServeCache
            } else {
                let rest = crate::text::chars_of(e.as_str());
                LoadResult::Fail(message("Failed to fetch SpoolmanDB: ", &rest))
            }
        },
    }
}

} // verus!
