//! The two timestamp encodings of the service: whole seconds since the Unix
//! epoch, and RFC 3339 text with an explicit offset. Each field of a response
//! declares which one it holds.
use vstd::prelude::*;
use vstd::string::*;
use crate::error::DecodeError;
use crate::json::{FromJson, Json};
use crate::text::{decimal, decimal_of};

verus! {

/// Seconds since the epoch of the latest instant that chrono represents,
/// 262142-12-31T23:59:59Z.
pub const MAX_EPOCH_SECS: u64 = 8210266876799;

/// Relies on chrono::DateTime::from_timestamp: it returns `Some` exactly for
/// the seconds within chrono's range, whose upper end is `MAX_EPOCH_SECS`.
#[verifier::external_body]
fn epoch_in_range(secs: i64) -> (r: bool)
    requires
        0 <= secs,
    ensures
        r == (secs <= MAX_EPOCH_SECS),
{
    chrono::DateTime::from_timestamp(secs, 0).is_some()
}

/// A time given as whole seconds since the Unix epoch.
#[derive(Debug, Clone, Copy, PartialEq, Eq, Structural)]
pub struct VaultNaiveDateTime(pub i64);

impl VaultNaiveDateTime {
    /// The seconds fall in the range of representable calendar times.
    pub open spec fn wf(self) -> bool {
        0 <= self.0 <= MAX_EPOCH_SECS
    }
}

/// The message of a rejected epoch timestamp.
pub open spec fn epoch_error_text(value: nat) -> Seq<char> {
    "Could not parse: `"@ + decimal_of(value) + "` as a unix timestamp"@
}

/// Reads a timestamp given as seconds since the Unix epoch; fails when the
/// count maps to no calendar time.
pub fn decode_timestamp_epoch(wire_value: u64) -> (r: Result<VaultNaiveDateTime, DecodeError>)
    ensures
        wire_value <= MAX_EPOCH_SECS ==> r == Ok::<VaultNaiveDateTime, DecodeError>(
            VaultNaiveDateTime(wire_value as i64),
        ),
        wire_value > MAX_EPOCH_SECS ==> (r matches Err(DecodeError::InvalidTimestamp(m))
            && m@ == epoch_error_text(wire_value as nat)),
        r matches Ok(t) ==> t.wf(),
{
    if wire_value <= MAX_EPOCH_SECS && epoch_in_range(wire_value as i64) {
        Ok(VaultNaiveDateTime(wire_value as i64))
    } else {
        let m = String::from_str("Could not parse: `").concat(decimal(wire_value).as_str()).concat(
            "` as a unix timestamp",
        );
        Err(DecodeError::InvalidTimestamp(m))
    }
}

/// What chrono makes of an RFC 3339 string: the instant in seconds since the
/// epoch, its nanoseconds and the offset in seconds east of UTC; or the text
/// of the parse error.
pub uninterp spec fn rfc3339_parsed(s: Seq<char>) -> Result<(int, int, int), Seq<char>>;

/// The value of an ASCII digit.
pub open spec fn digit_value(c: char) -> int {
    c as int - 48
}

/// The offset, in seconds east of UTC, that ends an RFC 3339 string: `Z`
/// (either case) for zero, or a sign, two digits of hours, a colon and two
/// digits of minutes.
pub open spec fn rfc3339_offset(s: Seq<char>) -> int {
    let n = s.len() as int;
    if n >= 1 && (s[n - 1] == 'Z' || s[n - 1] == 'z') {
        0
    } else {
        let mag = (digit_value(s[n - 5]) * 10 + digit_value(s[n - 4])) * 3600 + (digit_value(
            s[n - 2],
        ) * 10 + digit_value(s[n - 1])) * 60;
        if s[n - 6] == '+' {
            mag
        } else {
            -mag
        }
    }
}

/// Relies on chrono::DateTime::parse_from_rfc3339. On success the offset is
/// the one the string ends with: chrono reads `Z`/`z` or `±hh:mm` and then
/// requires the end of the input.
#[verifier::external_body]
fn parse_rfc3339(s: &str) -> (r: Result<(i64, u32, i32), String>)
    ensures
        match r {
            Ok(v) => rfc3339_parsed(s@) == Ok::<(int, int, int), Seq<char>>(
                (v.0 as int, v.1 as int, v.2 as int),
            ) && v.2 == rfc3339_offset(s@),
            Err(e) => rfc3339_parsed(s@) == Err::<(int, int, int), Seq<char>>(e@),
        },
{
    chrono::DateTime::parse_from_rfc3339(s)
        .map(|d| (d.timestamp(), d.timestamp_subsec_nanos(), d.offset().local_minus_utc()))
        .map_err(|e| format!("{:?}", e))
}

/// A time read from RFC 3339 text: the instant and the offset it was written in.
#[derive(Debug, Clone, Copy, PartialEq, Eq, Structural)]
pub struct VaultDateTime {
    /// Seconds since the Unix epoch.
    pub unix_secs: i64,
    /// Nanoseconds past `unix_secs`.
    pub nanos: u32,
    /// Offset of the written local time, in seconds east of UTC.
    pub offset_secs: i32,
}

/// The message of a rejected RFC 3339 string, holding the string and the
/// parse error.
pub open spec fn rfc3339_error_text(s: Seq<char>, e: Seq<char>) -> Seq<char> {
    "Could not parse: `"@ + s + "` as an RFC 3339 timestamp. Error: `"@ + e + "`"@
}

/// Reads an RFC 3339 timestamp with explicit offset. Every string that chrono
/// accepts is decoded, keeping the offset that the string ends with; any other
/// fails with a message that holds the string and the parse error.
pub fn decode_timestamp_rfc3339(wire_value: &str) -> (r: Result<VaultDateTime, DecodeError>)
    ensures
        r is Ok <==> rfc3339_parsed(wire_value@) is Ok,
        r matches Ok(t) ==> rfc3339_parsed(wire_value@) == Ok::<(int, int, int), Seq<char>>(
            (t.unix_secs as int, t.nanos as int, t.offset_secs as int),
        ) && t.offset_secs == rfc3339_offset(wire_value@),
        r matches Err(e) ==> (e matches DecodeError::InvalidTimestamp(m) && rfc3339_parsed(
            wire_value@,
        ) matches Err(pe) && m@ == rfc3339_error_text(wire_value@, pe)),
{
    match parse_rfc3339(wire_value) {
        Ok(v) => Ok(VaultDateTime { unix_secs: v.0, nanos: v.1, offset_secs: v.2 }),
        Err(e) => {
            let m = String::from_str("Could not parse: `").concat(wire_value).concat(
                "` as an RFC 3339 timestamp. Error: `",
            ).concat(e.as_str()).concat("`");
            Err(DecodeError::InvalidTimestamp(m))
        },
    }
}

impl FromJson for VaultNaiveDateTime {
    open spec fn json_accepts(j: Json) -> bool {
        j matches Json::UInt(u) && u <= MAX_EPOCH_SECS
    }

    open spec fn decoded_from(v: VaultNaiveDateTime, j: Json) -> bool {
        j matches Json::UInt(u) && v.0 == u
    }

    fn from_json(j: &Json) -> (r: Option<VaultNaiveDateTime>) {
        match j {
            Json::UInt(u) => match decode_timestamp_epoch(*u) {
                Ok(t) => Some(t),
                Err(_) => None,
            },
            _ => None,
        }
    }
}

impl FromJson for VaultDateTime {
    open spec fn json_accepts(j: Json) -> bool {
        j matches Json::Str(s) && rfc3339_parsed(s@) is Ok
    }

    open spec fn decoded_from(v: VaultDateTime, j: Json) -> bool {
        j matches Json::Str(s) && rfc3339_parsed(s@) == Ok::<(int, int, int), Seq<char>>(
            (v.unix_secs as int, v.nanos as int, v.offset_secs as int),
        )
    }

    fn from_json(j: &Json) -> (r: Option<VaultDateTime>) {
        match j {
            Json::Str(s) => match decode_timestamp_rfc3339(s.as_str()) {
                Ok(t) => Some(t),
                Err(_) => None,
            },
            _ => None,
        }
    }
}

} // verus!
