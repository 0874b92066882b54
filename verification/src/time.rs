//! Points in time, as seconds and nanoseconds since the Unix epoch (UTC).
use vstd::prelude::*;

verus! {

/// What `DateTime::<Utc>::from_timestamp(secs, nanos)` formatted with
/// `"%Y-%m-%d %H:%M"` gives: `None` when chrono cannot represent the
/// instant.
pub uninterp spec fn chrono_minute_text(secs: i64, nanos: u32) -> Option<Seq<char>>;

/// Formats an instant to the minute with chrono. The calendar arithmetic
/// is chrono's and is left unsaid: the result is named.
#[verifier::external_body]
fn format_minute(secs: i64, nanos: u32) -> (r: Option<String>)
    ensures
        match r {
            Some(s) => chrono_minute_text(secs, nanos) == Some(s@),
            None => chrono_minute_text(secs, nanos) is None,
        },
{
    match chrono::DateTime::from_timestamp(secs, nanos) {
        Some(t) => Some(t.format("%Y-%m-%d %H:%M").to_string()),
        None => None,
    }
}

/// An instant chrono can represent, in UTC.
#[derive(Debug, Clone, Copy)]
pub struct Timestamp {
    secs: i64,
    nanos: u32,
}

impl Timestamp {
    #[verifier::type_invariant]
    spec fn representable(self) -> bool {
        chrono_minute_text(self.secs, self.nanos) is Some
    }

    pub closed spec fn seconds(self) -> i64 {
        self.secs
    }

    pub closed spec fn subsec_nanos(self) -> u32 {
        self.nanos
    }

    /// The instant `secs` seconds and `nanos` nanoseconds after the epoch,
    /// when chrono can represent it.
    pub fn new(secs: i64, nanos: u32) -> (r: Option<Timestamp>)
        ensures
            match r {
                Some(t) => t.seconds() == secs && t.subsec_nanos() == nanos
                    && chrono_minute_text(secs, nanos) is Some,
                None => chrono_minute_text(secs, nanos) is None,
            },
    {
        match format_minute(secs, nanos) {
            Some(_) => Some(Timestamp { secs, nanos }),
            None => None,
        }
    }

    pub fn secs(&self) -> (r: i64)
        ensures
            r == self.seconds(),
    {
        self.secs
    }

    pub fn nanos(&self) -> (r: u32)
        ensures
            r == self.subsec_nanos(),
    {
        self.nanos
    }

    /// The instant formatted to the minute, `YYYY-MM-DD HH:MM`.
    pub open spec fn spec_minute_text(self) -> Seq<char> {
        chrono_minute_text(self.seconds(), self.subsec_nanos())->0
    }

    pub fn minute_text(&self) -> (r: String)
        ensures
            r@ == self.spec_minute_text(),
    {
        proof {
            use_type_invariant(self);
        }
        match format_minute(self.secs, self.nanos) {
            Some(s) => s,
            None => String::new(),
        }
    }

    /// Whether `self` comes strictly before `other`.
    pub fn is_before(&self, other: &Timestamp) -> (b: bool)
        ensures
            b == (self.seconds() < other.seconds() || (self.seconds() == other.seconds()
                && self.subsec_nanos() < other.subsec_nanos())),
    {
        self.secs < other.secs || (self.secs == other.secs && self.nanos < other.nanos)
    }
}

} // verus!

verus! {

/// What chrono gives for the instant `(secs, nanos)` moved by `delta`
/// seconds (`DateTime + TimeDelta::try_seconds(delta)`), as seconds and
/// nanoseconds: `None` when chrono cannot represent the start, the shift or
/// the result.
pub uninterp spec fn chrono_shifted(secs: i64, nanos: u32, delta: i64) -> Option<(i64, u32)>;

/// Moves an instant by whole seconds with chrono's checked arithmetic. The
/// result is named; beyond that the contract states what chrono's
/// `NaiveTime::overflowing_add_signed` shows outside a leap second (a
/// fraction below one second): whole seconds add to the timestamp and the
/// fraction is kept. When chrono answers `None` is left unsaid (its date
/// range).
#[verifier::external_body]
fn shift_seconds(secs: i64, nanos: u32, delta: i64) -> (r: Option<(i64, u32)>)
    ensures
        r == chrono_shifted(secs, nanos, delta),
        nanos < 1_000_000_000 ==> (r matches Some(p) ==> p.0 == secs + delta && p.1 == nanos),
{
    let start = match chrono::DateTime::from_timestamp(secs, nanos) {
        Some(t) => t,
        None => return None,
    };
    let step = match chrono::TimeDelta::try_seconds(delta) {
        Some(d) => d,
        None => return None,
    };
    match start.checked_add_signed(step) {
        Some(t) => Some((t.timestamp(), t.timestamp_subsec_nanos())),
        None => None,
    }
}

impl Timestamp {
    /// The instant `delta` seconds later (earlier when negative), when
    /// chrono can represent it.
    pub fn shifted(&self, delta: i64) -> (r: Option<Timestamp>)
        ensures
            match chrono_shifted(self.seconds(), self.subsec_nanos(), delta) {
                Some(p) => (chrono_minute_text(p.0, p.1) is Some ==> (r matches Some(t)
                    && t.seconds() == p.0 && t.subsec_nanos() == p.1)) && (chrono_minute_text(
                    p.0,
                    p.1,
                ) is None ==> r is None),
                None => r is None,
            },
            self.subsec_nanos() < 1_000_000_000 ==> (r matches Some(t) ==> t.seconds() == self.seconds()
                + delta && t.subsec_nanos() == self.subsec_nanos()),
    {
        match shift_seconds(self.secs, self.nanos, delta) {
            Some((s, n)) => Timestamp::new(s, n),
            None => None,
        }
    }
}

} // verus!

verus! {

/// `shift_seconds` for a timestamp.
pub(crate) fn shift_seconds_of(t: &Timestamp, delta: i64) -> (r: Option<(i64, u32)>)
    ensures
        r == chrono_shifted(t.seconds(), t.subsec_nanos(), delta),
        t.subsec_nanos() < 1_000_000_000 ==> (r matches Some(p) ==> p.0 == t.seconds() + delta
            && p.1 == t.subsec_nanos()),
{
    shift_seconds(t.secs, t.nanos, delta)
}

} // verus!
