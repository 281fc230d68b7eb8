//! Instants as the daemon reports them (seconds and nanoseconds since the
//! Unix epoch, UTC), rendered through chrono.

use vstd::prelude::*;

verus! {

/// Whether `chrono::DateTime::<Utc>::from_timestamp(secs, nanos)` accepts the
/// pair (the date is in chrono's range and the nanoseconds are a valid
/// fraction, a leap second only at a minute's last second).
pub uninterp spec fn timestamp_accepted(secs: i64, nanos: u32) -> bool;

/// What `to_rfc3339` writes for the instant `secs`/`nanos`.
pub uninterp spec fn rfc3339_of(secs: i64, nanos: u32) -> Seq<char>;

/// What `format(pattern).to_string()` writes for the instant `secs`/`nanos`.
pub uninterp spec fn formatted_of(secs: i64, nanos: u32, pattern: Seq<char>) -> Seq<char>;

/// The pattern the CLI shows wall-clock instants with.
pub open spec fn wall_clock_pattern() -> Seq<char> {
    "%Y-%m-%d %H:%M:%S"@
}

/// `chrono::DateTime::<Utc>::from_timestamp`: whether the instant is one
/// chrono can represent.
#[verifier::external_body]
fn chrono_accepts(secs: i64, nanos: u32) -> (r: bool)
    ensures
        r == timestamp_accepted(secs, nanos),
{
    chrono::DateTime::from_timestamp(secs, nanos).is_some()
}

/// `chrono::DateTime::<Utc>::to_rfc3339` on the instant `secs`/`nanos`
/// (built with `from_timestamp`, which the precondition says succeeds).
#[verifier::external_body]
fn chrono_rfc3339(secs: i64, nanos: u32) -> (r: String)
    requires
        timestamp_accepted(secs, nanos),
    ensures
        r@ == rfc3339_of(secs, nanos),
{
    chrono::DateTime::from_timestamp(secs, nanos).map(|at| at.to_rfc3339()).unwrap_or_default()
}

/// `chrono::DateTime::<Utc>::format(pattern).to_string()` on the instant
/// `secs`/`nanos`; only the wall-clock pattern, whose items all render, is
/// admitted.
#[verifier::external_body]
fn chrono_format(secs: i64, nanos: u32, pattern: &str) -> (r: String)
    requires
        timestamp_accepted(secs, nanos),
        pattern@ == wall_clock_pattern(),
    ensures
        r@ == formatted_of(secs, nanos, pattern@),
{
    chrono::DateTime::from_timestamp(secs, nanos).map(|at| at.format(pattern).to_string())
        .unwrap_or_default()
}

/// An instant chrono can represent.
pub struct Timestamp {
    secs: i64,
    nanos: u32,
}

impl Timestamp {
    #[verifier::type_invariant]
    spec fn representable(self) -> bool {
        timestamp_accepted(self.secs, self.nanos)
    }

    pub closed spec fn spec_secs(self) -> i64 {
        self.secs
    }

    pub closed spec fn spec_nanos(self) -> u32 {
        self.nanos
    }

    /// The instant `secs` seconds and `nanos` nanoseconds after the epoch, if
    /// chrono can represent it.
    pub fn new(secs: i64, nanos: u32) -> (r: Option<Timestamp>)
        ensures
            timestamp_accepted(secs, nanos) ==> (r matches Some(t) && t.spec_secs() == secs
                && t.spec_nanos() == nanos),
            !timestamp_accepted(secs, nanos) ==> r is None,
    {
        if chrono_accepts(secs, nanos) {
            Some(Timestamp { secs, nanos })
        } else {
            None
        }
    }

    /// The instant as RFC 3339 text.
    pub fn to_rfc3339(&self) -> (r: String)
        ensures
            r@ == rfc3339_of(self.spec_secs(), self.spec_nanos()),
    {
        proof {
            use_type_invariant(self);
        }
        chrono_rfc3339(self.secs, self.nanos)
    }

    /// The instant as `YYYY-MM-DD HH:MM:SS`.
    pub fn wall_clock(&self) -> (r: String)
        ensures
            r@ == formatted_of(self.spec_secs(), self.spec_nanos(), wall_clock_pattern()),
    {
        proof {
            use_type_invariant(self);
        }
        chrono_format(self.secs, self.nanos, "%Y-%m-%d %H:%M:%S")
    }
}

} // verus!
