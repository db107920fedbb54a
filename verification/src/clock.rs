//! Points in time, and what lies between two of them.

use vstd::prelude::*;

verus! {

/// The first second that a `Timestamp` can hold, counted from the start of 1970.
pub const MIN_SECS: i64 = -8_334_601_228_800;

/// The last second that a `Timestamp` can hold.
pub const MAX_SECS: i64 = 8_210_266_876_799;

pub const NANOS_PER_SEC: u32 = 1_000_000_000;

/// A point in time (UTC). Its view is the number of nanoseconds since the
/// start of 1970.
#[derive(Debug, Clone, Copy, PartialEq, Eq, Structural)]
pub struct Timestamp {
    secs: i64,
    nanos: u32,
}

impl View for Timestamp {
    type V = int;

    closed spec fn view(&self) -> int {
        self.secs * 1_000_000_000 + self.nanos
    }
}

/// The whole seconds from one point in time to another, rounded towards zero.
/// Negative where `to` is the earlier one by a second or more.
pub open spec fn whole_seconds(from: int, to: int) -> int {
    if from <= to {
        (to - from) / 1_000_000_000
    } else {
        -((from - to) / 1_000_000_000)
    }
}

/// Whether the system clock can show a point in time: one in 1970 or later
/// that a `Timestamp` can hold.
pub open spec fn can_show(t: int) -> bool {
    0 <= t < (MAX_SECS + 1) * 1_000_000_000
}

/// The text that chrono's `DateTime::<Utc>::to_rfc3339` gives for the point in
/// time that lies `secs` seconds and `nanos` nanoseconds after the start of 1970.
pub uninterp spec fn rfc3339_text(secs: i64, nanos: u32) -> Seq<char>;

/// Calls `chrono::Utc::now`. What the clock shows is open; it is a date that
/// chrono can hold, not before 1970, and not inside a leap second. A system
/// clock set before 1970, or past the last date, makes chrono panic.
#[verifier::external_body]
fn chrono_now() -> (r: (i64, u32))
    ensures
        0 <= r.0 <= MAX_SECS,
        r.1 < NANOS_PER_SEC,
{
    let now = chrono::Utc::now();
    (now.timestamp(), now.timestamp_subsec_nanos())
}

/// Calls `DateTime::signed_duration_since` of chrono and takes `num_seconds` of
/// the result: the whole seconds between two dates that chrono can hold,
/// rounded towards zero.
#[verifier::external_body]
fn chrono_seconds_between(from: (i64, u32), to: (i64, u32)) -> (r: i64)
    requires
        MIN_SECS <= from.0 <= MAX_SECS,
        from.1 < NANOS_PER_SEC,
        MIN_SECS <= to.0 <= MAX_SECS,
        to.1 < NANOS_PER_SEC,
    ensures
        r == whole_seconds(from.0 * 1_000_000_000 + from.1, to.0 * 1_000_000_000 + to.1),
{
    let start = chrono::DateTime::from_timestamp(from.0, from.1).unwrap();
    let end = chrono::DateTime::from_timestamp(to.0, to.1).unwrap();
    end.signed_duration_since(start).num_seconds()
}

/// Calls `DateTime::to_rfc3339` of chrono on a date that chrono can hold.
#[verifier::external_body]
fn chrono_rfc3339(secs: i64, nanos: u32) -> (r: String)
    requires
        MIN_SECS <= secs <= MAX_SECS,
        nanos < NANOS_PER_SEC,
    ensures
        r@ == rfc3339_text(secs, nanos),
{
    chrono::DateTime::from_timestamp(secs, nanos).unwrap().to_rfc3339()
}

impl Timestamp {
    #[verifier::type_invariant]
    spec fn in_range(self) -> bool {
        &&& MIN_SECS <= self.secs <= MAX_SECS
        &&& self.nanos < NANOS_PER_SEC
    }

    /// The point in time `secs` seconds and `nanos` nanoseconds after the start
    /// of 1970, if it can be held.
    pub fn new(secs: i64, nanos: u32) -> (r: Option<Timestamp>)
        ensures
            r is Some <==> MIN_SECS <= secs <= MAX_SECS && nanos < NANOS_PER_SEC,
            r matches Some(t) ==> t@ == secs * 1_000_000_000 + nanos,
    {
        if MIN_SECS <= secs && secs <= MAX_SECS && nanos < NANOS_PER_SEC {
            Some(Timestamp { secs, nanos })
        } else {
            None
        }
    }

    /// What the system clock shows. Nothing more is known of it than the range
    /// it lies in.
    pub fn now() -> (r: Timestamp)
        ensures
            can_show(r@),
    {
        let (secs, nanos) = chrono_now();
        Timestamp { secs, nanos }
    }

    /// The whole seconds that have passed since `earlier`, rounded towards zero.
    pub fn seconds_since(self, earlier: Timestamp) -> (r: i64)
        ensures
            r == whole_seconds(earlier@, self@),
    {
        proof {
            use_type_invariant(&self);
            use_type_invariant(&earlier);
        }
        chrono_seconds_between((earlier.secs, earlier.nanos), (self.secs, self.nanos))
    }

    /// The date and time of day, as RFC 3339 writes them.
    pub fn to_rfc3339(self) -> (r: String)
        ensures
            r@ == rfc3339_of(self@),
    {
        proof {
            use_type_invariant(&self);
            assert(self@ / 1_000_000_000 == self.secs && self@ % 1_000_000_000 == self.nanos)
                by (nonlinear_arith)
                requires
                    self@ == self.secs * 1_000_000_000 + self.nanos,
                    self.nanos < 1_000_000_000,
            ;
        }
        chrono_rfc3339(self.secs, self.nanos)
    }
}

/// The date and time of day of a point in time, as RFC 3339 writes them.
pub open spec fn rfc3339_of(t: int) -> Seq<char> {
    rfc3339_text((t / 1_000_000_000) as i64, (t % 1_000_000_000) as u32)
}

// ---------------------------------------------------------------------------
// Laws
// ---------------------------------------------------------------------------

/// Whole seconds are what is left of the time between two points once the
/// fraction of a second is dropped, and looking back gives the same number
/// with the other sign.
pub proof fn whole_seconds_drop_the_fraction(from: int, to: int)
    requires
        from <= to,
    ensures
        0 <= (to - from) - whole_seconds(from, to) * 1_000_000_000 < 1_000_000_000,
        0 <= whole_seconds(from, to),
        whole_seconds(to, from) == -whole_seconds(from, to),
{
}

/// The date of a point in time is that of its seconds and nanoseconds.
pub proof fn date_of_seconds_and_nanoseconds(secs: i64, nanos: u32)
    requires
        nanos < 1_000_000_000,
    ensures
        rfc3339_of(secs * 1_000_000_000 + nanos) == rfc3339_text(secs, nanos),
{
    let t = secs * 1_000_000_000 + nanos;
    assert(t / 1_000_000_000 == secs && t % 1_000_000_000 == nanos) by (nonlinear_arith)
        requires
            t == secs * 1_000_000_000 + nanos,
            nanos < 1_000_000_000,
    ;
}

/// The clock shows nothing before 1970 and nothing after the last date that
/// chrono can hold, the end of the year 262142.
pub proof fn clock_range(t: int)
    ensures
        can_show(t) <==> 0 <= t && t < 8_210_266_876_800_000_000_000,
{
}

} // verus!
