//! Points in time as seconds and nanoseconds since the Unix epoch, the
//! system clock, RFC 3339 rendering, and fresh flow identifiers.
use vstd::prelude::*;

verus! {

/// The first second that a UTC date-time can represent (start of year -262143).
pub const MIN_TIMESTAMP_SECS: i64 = -8_334_601_228_800;

/// The last second that a UTC date-time can represent (end of year 262142).
pub const MAX_TIMESTAMP_SECS: i64 = 8_210_266_876_799;

/// A point in time: whole seconds since 1970-01-01T00:00:00Z and the nanoseconds after them.
#[derive(Debug, Clone, Copy, PartialEq, Eq, Structural)]
pub struct Timestamp {
    pub secs: i64,
    pub nanos: u32,
}

impl Timestamp {
    /// A time that a UTC date-time can represent, without a leap second.
    pub open spec fn wf(self) -> bool {
        &&& MIN_TIMESTAMP_SECS <= self.secs <= MAX_TIMESTAMP_SECS
        &&& self.nanos < 1_000_000_000
    }

    /// Nanoseconds since the epoch.
    pub open spec fn total_nanos(self) -> int {
        self.secs as int * 1_000_000_000 + self.nanos as int
    }
}

/// Integer division rounded toward zero (`d > 0`).
pub open spec fn div_toward_zero(x: int, d: int) -> int {
    if x >= 0 { x / d } else { -((-x) / d) }
}

/// Whole milliseconds from `earlier` to `later`, rounded toward zero.
pub open spec fn millis_between(later: Timestamp, earlier: Timestamp) -> int {
    div_toward_zero(later.total_nanos() - earlier.total_nanos(), 1_000_000)
}

/// Whole seconds from `earlier` to `later`, rounded toward zero.
pub open spec fn secs_between(later: Timestamp, earlier: Timestamp) -> int {
    div_toward_zero(later.total_nanos() - earlier.total_nanos(), 1_000_000_000)
}

fn nanos_difference(later: Timestamp, earlier: Timestamp) -> (d: i128)
    requires
        later.wf(),
        earlier.wf(),
    ensures
        d == later.total_nanos() - earlier.total_nanos(),
        -20_000_000_000_000_000_000_000 <= d <= 20_000_000_000_000_000_000_000,
{
    (later.secs as i128 - earlier.secs as i128) * 1_000_000_000 + (later.nanos as i128 - earlier.nanos as i128)
}

fn divide_toward_zero(x: i128, d: i128) -> (q: i128)
    requires
        d > 0,
        -20_000_000_000_000_000_000_000 <= x <= 20_000_000_000_000_000_000_000,
    ensures
        q == div_toward_zero(x as int, d as int),
{
    if x >= 0 {
        x / d
    } else {
        -((-x) / d)
    }
}

/// Milliseconds from `earlier` to `later`, rounded toward zero (the `num_milliseconds`
/// of the difference of the two date-times).
pub fn elapsed_millis(later: Timestamp, earlier: Timestamp) -> (ms: i64)
    requires
        later.wf(),
        earlier.wf(),
    ensures
        ms == millis_between(later, earlier),
{
    let q = divide_toward_zero(nanos_difference(later, earlier), 1_000_000);
    assert(-20_000_000_000_000_000 <= q <= 20_000_000_000_000_000);
    q as i64
}

/// Seconds from `earlier` to `later`, rounded toward zero (the `num_seconds`
/// of the difference of the two date-times).
pub fn elapsed_secs(later: Timestamp, earlier: Timestamp) -> (s: i64)
    requires
        later.wf(),
        earlier.wf(),
    ensures
        s == secs_between(later, earlier),
{
    let q = divide_toward_zero(nanos_difference(later, earlier), 1_000_000_000);
    assert(-20_000_000_000_000 <= q <= 20_000_000_000_000);
    q as i64
}

/// Reads the system clock (`std::time::SystemTime::now`) and turns it into a UTC
/// date-time with chrono's `From<SystemTime> for DateTime<Utc>`, split into the
/// date-time's `timestamp()` and `timestamp_subsec_nanos()`. Claimed, from chrono's
/// source: a clock before the epoch becomes a negative timestamp, and the result is a
/// valid UTC date-time (seconds within chrono's range, nanoseconds below 10^9, as the
/// conversion makes them). Nothing is claimed of the value itself. The conversion
/// unwraps chrono's range check (years -262143 to 262142). The system clock cannot
/// fail it on Linux, where this sensor captures (AF_PACKET): the kernel keeps the
/// realtime clock as signed 64-bit nanoseconds around the epoch (years 1677 to 2262).
#[verifier::external_body]
pub(crate) fn now() -> (t: Timestamp)
    ensures
        t.wf(),
{
    let now = chrono::DateTime::<chrono::Utc>::from(std::time::SystemTime::now());
    Timestamp { secs: now.timestamp(), nanos: now.timestamp_subsec_nanos() }
}

/// The RFC 3339 text that chrono gives a UTC date-time.
pub uninterp spec fn rfc3339_text(secs: i64, nanos: u32) -> Seq<char>;

/// Calls `chrono::DateTime::<Utc>::to_rfc3339` on the date-time that
/// `chrono::DateTime::from_timestamp(secs, nanos)` builds. `from_timestamp` gives a
/// date-time for every well-formed timestamp (seconds within chrono's range,
/// nanoseconds below 10^9), so the default never stands in. Claimed: the text is a
/// function of the two numbers alone, named `rfc3339_text`.
#[verifier::external_body]
pub(crate) fn rfc3339(t: Timestamp) -> (s: String)
    requires
        t.wf(),
    ensures
        s@ == rfc3339_text(t.secs, t.nanos),
{
    chrono::DateTime::from_timestamp(t.secs, t.nanos).unwrap_or_default().to_rfc3339()
}

/// The lower-case hexadecimal digits.
pub open spec fn is_lower_hex(c: char) -> bool {
    ('0' <= c <= '9') || ('a' <= c <= 'f')
}

/// The shape of a hyphenated UUID: 36 characters, hyphens at 8, 13, 18 and 23,
/// lower-case hex digits elsewhere.
pub open spec fn uuid_shaped(s: Seq<char>) -> bool {
    &&& s.len() == 36
    &&& forall|i: int| 0 <= i < 36 ==> if i == 8 || i == 13 || i == 18 || i == 23 {
        s[i] == '-'
    } else {
        is_lower_hex(#[trigger] s[i])
    }
}

/// Calls `uuid::Uuid::new_v4` and renders it with `to_string`. Claimed, from uuid's
/// source: `Display` writes the lower-case hyphenated form, 36 characters with hyphens
/// at positions 8, 13, 18 and 23 and hex digits elsewhere. The value itself is random.
#[verifier::external_body]
pub(crate) fn new_flow_id() -> (s: String)
    ensures
        uuid_shaped(s@),
{
    uuid::Uuid::new_v4().to_string()
}

} // verus!
