//! UTC instants as Unix seconds and nanoseconds, rendered as RFC 3339 text
//! by `chrono`.

use vstd::prelude::*;

verus! {

/// The RFC 3339 text that `chrono` gives the UTC instant `secs` seconds and
/// `nanos` nanoseconds after the Unix epoch, or `None` where `chrono` has no
/// such instant.
pub uninterp spec fn rfc3339_text(secs: int, nanos: int) -> Option<Seq<char>>;

/// Instants from the epoch to the end of year 9999, with a nanosecond part
/// below one second. `chrono` represents all of them.
pub open spec fn in_calendar_range(secs: int, nanos: int) -> bool {
    0 <= secs < 253_402_300_800 && 0 <= nanos < 1_000_000_000
}

/// Calls `chrono::DateTime::from_timestamp` and, where that yields an
/// instant, `DateTime::to_rfc3339` on it.
///
/// Trusted: the result is the text named by `rfc3339_text`, and it exists for
/// every instant in `in_calendar_range` (the date then lies between 1970 and
/// 9999, well inside the years `chrono` supports, and the time of day is
/// valid).
#[verifier::external_body]
fn render_rfc3339(secs: i64, nanos: u32) -> (text: Option<String>)
    ensures
        text.deep_view() == rfc3339_text(secs as int, nanos as int),
        in_calendar_range(secs as int, nanos as int) ==> text is Some,
{
    match chrono::DateTime::from_timestamp(secs, nanos) {
        Some(instant) => Some(instant.to_rfc3339()),
        None => None,
    }
}

/// A UTC instant that `chrono` can represent.
#[derive(Debug, Clone, Copy)]
pub struct Timestamp {
    secs: i64,
    nanos: u32,
}

impl Timestamp {
    #[verifier::type_invariant]
    spec fn representable(self) -> bool {
        rfc3339_text(self.secs as int, self.nanos as int) is Some
    }

    /// Whole seconds since the Unix epoch.
    pub closed spec fn unix_secs(self) -> int {
        self.secs as int
    }

    /// Nanoseconds since the last whole second.
    pub closed spec fn subsec_nanos(self) -> int {
        self.nanos as int
    }

    /// `self` is not later than `other`: seconds decide, then nanoseconds.
    pub open spec fn not_after(self, other: Timestamp) -> bool {
        self.unix_secs() < other.unix_secs() || (self.unix_secs() == other.unix_secs()
            && self.subsec_nanos() <= other.subsec_nanos())
    }

    /// The RFC 3339 text of this instant.
    pub open spec fn text(self) -> Seq<char> {
        rfc3339_text(self.unix_secs(), self.subsec_nanos())->0
    }

    /// The instant `secs` seconds and `nanos` nanoseconds after the Unix
    /// epoch, if `chrono` has one. Every instant in `in_calendar_range` does.
    pub fn from_unix(secs: i64, nanos: u32) -> (instant: Option<Timestamp>)
        ensures
            instant is Some <==> rfc3339_text(secs as int, nanos as int) is Some,
            in_calendar_range(secs as int, nanos as int) ==> instant is Some,
            instant matches Some(t) ==> t.unix_secs() == secs && t.subsec_nanos() == nanos,
    {
        match render_rfc3339(secs, nanos) {
            Some(_) => Some(Timestamp { secs, nanos }),
            None => None,
        }
    }

    /// Whole seconds since the Unix epoch.
    pub fn seconds(&self) -> (secs: i64)
        ensures
            secs == self.unix_secs(),
    {
        self.secs
    }

    /// Nanoseconds since the last whole second.
    pub fn nanoseconds(&self) -> (nanos: u32)
        ensures
            nanos == self.subsec_nanos(),
    {
        self.nanos
    }

    /// Whether `self` is not later than `other`.
    pub fn is_not_after(&self, other: &Timestamp) -> (earlier: bool)
        ensures
            earlier == self.not_after(*other),
    {
        self.secs < other.secs || (self.secs == other.secs && self.nanos <= other.nanos)
    }

    /// The instant as RFC 3339 text.
    pub fn to_rfc3339(&self) -> (text: String)
        ensures
            text@ == self.text(),
    {
        proof {
            use_type_invariant(self);
        }
        match render_rfc3339(self.secs, self.nanos) {
            Some(text) => text,
            None => String::new(),
        }
    }
}

/// `not_after` orders instants totally: it is reflexive, transitive, holds
/// one way or the other of any two instants, and only equal instants are
/// each not after the other.
pub proof fn lemma_not_after_total_order(a: Timestamp, b: Timestamp, c: Timestamp)
    ensures
        a.not_after(a),
        a.not_after(b) || b.not_after(a),
        a.not_after(b) && b.not_after(c) ==> a.not_after(c),
        a.not_after(b) && b.not_after(a) ==> a == b,
{
}

} // verus!
