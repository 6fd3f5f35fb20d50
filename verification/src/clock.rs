//! Points in time, and the calls into `chrono` that read the clock and format dates.
use vstd::prelude::*;

verus! {

/// A UTC instant as whole seconds since the Unix epoch plus nanoseconds,
/// exactly the pair chrono's `DateTime<Utc>` round-trips through
/// (`timestamp`, `timestamp_subsec_nanos`).
#[derive(Clone, Copy, Debug, PartialEq, Eq, Structural)]
pub struct Timestamp {
    pub secs: i64,
    pub nanos: u32,
}

/// What chrono's `DateTime::<Utc>::from_timestamp(secs, nanos)` followed by
/// `to_rfc3339()` yields: `None` when chrono rejects the pair.
pub uninterp spec fn chrono_rfc3339(secs: i64, nanos: u32) -> Option<Seq<char>>;

/// Calls chrono's `Utc::now()` and splits the result into seconds and nanoseconds.
/// Which instant comes back is not claimed: it is the time of the call. chrono
/// builds it with `DateTime::from_timestamp` from the system clock's whole
/// seconds and sub-second nanoseconds, so the nanoseconds stay below one second
/// and the pair is one that chrono formats. chrono panics when the system clock
/// reads before 1970; no argument can rule that out.
#[verifier::external_body]
pub(crate) fn now() -> (r: Timestamp)
    ensures
        r.nanos < 1_000_000_000,
        chrono_rfc3339(r.secs, r.nanos) is Some,
{
    let t = chrono::Utc::now();
    Timestamp { secs: t.timestamp(), nanos: t.timestamp_subsec_nanos() }
}

/// Calls chrono's `DateTime::<Utc>::from_timestamp` and then `to_rfc3339` on the
/// result. The contract names the result: it is a function of `t` alone.
#[verifier::external_body]
pub(crate) fn rfc3339(t: Timestamp) -> (r: Option<String>)
    ensures
        match r {
            Some(s) => chrono_rfc3339(t.secs, t.nanos) == Some(s@),
            None => chrono_rfc3339(t.secs, t.nanos) is None,
        },
{
    match chrono::DateTime::<chrono::Utc>::from_timestamp(t.secs, t.nanos) {
        Some(d) => Some(d.to_rfc3339()),
        None => None,
    }
}

} // verus!
