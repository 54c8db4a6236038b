use vstd::prelude::*;
use vstd::string::StringExecFns;

verus! {

/// An instant in UTC: whole seconds since the Unix epoch and nanoseconds into
/// that second.
#[derive(Debug, Clone, Copy, PartialEq, Eq, Structural)]
pub struct FlexibleDateTime {
    pub secs: i64,
    pub nanos: u32,
}

/// A timestamp as an event body may write it: a signed or an unsigned number
/// of seconds or milliseconds, or RFC 3339 text.
#[derive(Debug, Clone)]
pub enum RawTimestamp {
    Signed(i64),
    Unsigned(u64),
    Text(String),
}

/// Whether UTC has an instant `secs` seconds after the epoch with `nanos`
/// nanoseconds into the second.
pub uninterp spec fn utc_timestamp_valid(secs: i64, nanos: u32) -> bool;

/// Relies on chrono's `Utc.timestamp_opt(secs, nanos).single()`: whether the
/// instant exists depends on the two numbers alone.
#[verifier::external_body]
fn utc_timestamp_exists(secs: i64, nanos: u32) -> (r: bool)
    ensures
        r == utc_timestamp_valid(secs, nanos),
{
    chrono::TimeZone::timestamp_opt(&chrono::Utc, secs, nanos).single().is_some()
}

/// The instant that RFC 3339 text names, as seconds and nanoseconds in UTC.
pub uninterp spec fn rfc3339_instant(s: Seq<char>) -> Option<(i64, u32)>;

/// Relies on chrono's `DateTime::parse_from_rfc3339`, whose result depends on
/// the text alone; the instant is read back with `timestamp` and
/// `timestamp_subsec_nanos`, and a refusal is kept as its message.
#[verifier::external_body]
fn parse_rfc3339(s: &str) -> (r: Result<(i64, u32), String>)
    ensures
        r is Ok <==> rfc3339_instant(s@) is Some,
        r matches Ok(v) ==> rfc3339_instant(s@) == Some(v),
{
    chrono::DateTime::parse_from_rfc3339(s)
        .map(|dt| (dt.timestamp(), dt.timestamp_subsec_nanos()))
        .map_err(|e| e.to_string())
}

/// Numbers of at least this magnitude count milliseconds, smaller ones seconds.
pub const MILLIS_THRESHOLD: u64 = 1000000000000;

/// Division that rounds toward zero.
pub open spec fn trunc_div(v: int, d: int) -> int {
    if v >= 0 {
        v / d
    } else {
        -((-v) / d)
    }
}

/// The remainder that goes with `trunc_div`: it has the sign of `v`.
pub open spec fn trunc_rem(v: int, d: int) -> int {
    if v >= 0 {
        v % d
    } else {
        -((-v) % d)
    }
}

/// A value in (-2^32, 2^32) read as the `u32` with the same low 32 bits.
pub open spec fn wrap_u32(x: int) -> int {
    if x < 0 {
        x + 0x1_0000_0000
    } else {
        x
    }
}

/// The seconds and nanoseconds that a signed number stands for. A negative
/// number of milliseconds with a remainder gives nanoseconds that no instant
/// has, so that it is refused.
pub open spec fn signed_parts(v: int) -> (int, int) {
    if v >= MILLIS_THRESHOLD || v <= -MILLIS_THRESHOLD {
        (trunc_div(v, 1000), wrap_u32(trunc_rem(v, 1000) * 1000000))
    } else {
        (v, 0)
    }
}

/// The seconds and nanoseconds that an unsigned number stands for.
pub open spec fn unsigned_parts(v: int) -> (int, int) {
    if v >= MILLIS_THRESHOLD {
        (v / 1000, (v % 1000) * 1000000)
    } else {
        (v, 0)
    }
}

/// Splits a signed number of seconds or milliseconds.
pub fn split_signed(v: i64) -> (r: (i64, u32))
    ensures
        r.0 as int == signed_parts(v as int).0,
        r.1 as int == signed_parts(v as int).1,
{
    if v >= 1000000000000 {
        let a = v as u64;
        ((a / 1000) as i64, ((a % 1000) * 1000000) as u32)
    } else if v <= -1000000000000 {
        let a: u64 = (-(v + 1)) as u64 + 1;
        assert(a as int == -(v as int));
        let q = a / 1000;
        let rem = a % 1000;
        let nanos: u32 = if rem == 0 {
            0
        } else {
            (4294967296u64 - rem * 1000000) as u32
        };
        (-(q as i64), nanos)
    } else {
        (v, 0)
    }
}

/// Splits an unsigned number of seconds or milliseconds.
pub fn split_unsigned(v: u64) -> (r: (i64, u32))
    ensures
        r.0 as int == unsigned_parts(v as int).0,
        r.1 as int == unsigned_parts(v as int).1,
{
    if v >= MILLIS_THRESHOLD {
        ((v / 1000) as i64, ((v % 1000) * 1000000) as u32)
    } else {
        (v as i64, 0)
    }
}

fn instant(secs: i64, nanos: u32) -> (r: Result<FlexibleDateTime, String>)
    ensures
        utc_timestamp_valid(secs, nanos) ==> r == Ok::<FlexibleDateTime, String>(
            FlexibleDateTime { secs, nanos },
        ),
        !utc_timestamp_valid(secs, nanos) ==> (r matches Err(m) && m@ == "invalid UNIX timestamp"@),
{
    if utc_timestamp_exists(secs, nanos) {
        Ok(FlexibleDateTime { secs, nanos })
    } else {
        Err(String::from_str("invalid UNIX timestamp"))
    }
}

/// Reads a timestamp written as seconds, as milliseconds (a number of at
/// least 10^12 in magnitude) or as RFC 3339 text.
pub fn datetime_from_int_or_str(raw: RawTimestamp) -> (r: Result<FlexibleDateTime, String>)
    ensures
        match raw {
            RawTimestamp::Signed(v) => {
                let (s, n) = signed_parts(v as int);
                if utc_timestamp_valid(s as i64, n as u32) {
                    r matches Ok(d) && d.secs == s && d.nanos == n
                } else {
                    r matches Err(m) && m@ == "invalid UNIX timestamp"@
                }
            },
            RawTimestamp::Unsigned(v) => {
                let (s, n) = unsigned_parts(v as int);
                if utc_timestamp_valid(s as i64, n as u32) {
                    r matches Ok(d) && d.secs == s && d.nanos == n
                } else {
                    r matches Err(m) && m@ == "invalid UNIX timestamp"@
                }
            },
            RawTimestamp::Text(t) => match rfc3339_instant(t@) {
                Some((s, n)) => r == Ok::<FlexibleDateTime, String>(
                    FlexibleDateTime { secs: s, nanos: n },
                ),
                None => r is Err,
            },
        },
{
    match raw {
        RawTimestamp::Signed(v) => {
            let (s, n) = split_signed(v);
            instant(s, n)
        },
        RawTimestamp::Unsigned(v) => {
            let (s, n) = split_unsigned(v);
            instant(s, n)
        },
        RawTimestamp::Text(t) => match parse_rfc3339(t.as_str()) {
            Ok((s, n)) => Ok(FlexibleDateTime { secs: s, nanos: n }),
            Err(m) => Err(m),
        },
    }
}

} // verus!
