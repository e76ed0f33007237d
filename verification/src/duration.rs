//! Elapsed-duration formatting: converts a start timestamp and the current
//! time into an `H:MM:SS` label.
//!
//! Minutes and seconds outside `[0, 59]` — which arise exactly when the
//! elapsed duration is negative, from upstream clock skew or bad data — are
//! rendered as the literal `"00"` rather than a signed value, while hours is
//! never clamped or padded. This asymmetry is deliberate and is kept as-is.

use crate::text::{dec_str, pad2, u64_to_dec, u64_to_dec2};
use vstd::prelude::*;

verus! {

/// Largest timestamp magnitude, in seconds, that a chrono date can denote:
/// chrono years are bounded by |year| < 262146, well under 10^13 seconds.
pub const MAX_CLOCK_SECS: i64 = 10_000_000_000_000;

/// The start timestamp is not a valid RFC 3339 string; rendering is aborted
/// for that single event only.
#[derive(Clone, Copy, PartialEq, Eq, Structural, Debug)]
pub struct TimestampParseError;

/// The whole-second UTC timestamp denoted by an RFC 3339 string, or `None`
/// if the string is not valid RFC 3339.
pub uninterp spec fn rfc3339_secs(s: Seq<char>) -> Option<int>;

/// Relies on chrono's `DateTime::parse_from_rfc3339` and `timestamp`: the
/// parse succeeds exactly on valid RFC 3339 strings and its result depends on
/// the characters alone; `timestamp` floors to whole seconds. A chrono date
/// holds a year of magnitude below 262146, so the timestamp magnitude stays
/// under 10^13.
#[verifier::external_body]
pub(crate) fn parse_rfc3339_secs(s: &str) -> (r: Option<i64>)
    ensures
        r is Some <==> rfc3339_secs(s@) is Some,
        r is Some ==> r->0 as int == rfc3339_secs(s@)->0,
        r is Some ==> -MAX_CLOCK_SECS <= r->0 <= MAX_CLOCK_SECS,
{
    match chrono::DateTime::parse_from_rfc3339(s) {
        Ok(dt) => Some(dt.timestamp()),
        Err(_) => None,
    }
}

/// Relies on std's `SystemTime::now` and `duration_since`: `Some` holds the
/// whole seconds between the Unix epoch and a clock reading at or past it;
/// a clock reading before the epoch gives `None`. Total on every clock
/// state: `duration_since` reports the backwards case as an error, and
/// nothing here unwraps it. Nothing can be promised of the value itself.
#[verifier::external_body]
fn clock_secs_since_epoch() -> (r: Option<u64>) {
    match std::time::SystemTime::now().duration_since(std::time::UNIX_EPOCH) {
        Ok(d) => Some(d.as_secs()),
        Err(_) => None,
    }
}

/// The current time as whole seconds since the Unix epoch, clamped to the
/// timestamp range above: a clock before the epoch reads as the epoch
/// itself, one past the largest representable date as `MAX_CLOCK_SECS`.
pub(crate) fn now_unix_secs() -> (r: i64)
    ensures
        0 <= r <= MAX_CLOCK_SECS,
{
    match clock_secs_since_epoch() {
        Some(s) => {
            if s > MAX_CLOCK_SECS as u64 {
                MAX_CLOCK_SECS
            } else {
                s as i64
            }
        },
        None => 0,
    }
}

/// The hours component of the label: the elapsed seconds divided by 3600,
/// truncated toward zero, in decimal with a sign where negative.
pub open spec fn hours_str(elapsed: int) -> Seq<char> {
    if elapsed >= 0 {
        dec_str((elapsed / 3600) as nat)
    } else if (-elapsed) / 3600 == 0 {
        seq!['0']
    } else {
        seq!['-'] + dec_str(((-elapsed) / 3600) as nat)
    }
}

/// The `H:MM:SS` label for an elapsed duration in whole seconds.
///
/// For a negative duration, the minute and second components (which would be
/// negative under truncating division) are rendered as `"00"`; hours keeps
/// its sign.
pub open spec fn duration_label(elapsed: int) -> Seq<char> {
    if elapsed >= 0 {
        hours_str(elapsed) + seq![':'] + pad2((elapsed / 60) % 60) + seq![':'] + pad2(elapsed % 60)
    } else {
        hours_str(elapsed) + seq![':', '0', '0', ':', '0', '0']
    }
}

/// Renders the `H:MM:SS` label for an elapsed duration in whole seconds.
pub fn format_duration(elapsed_secs: i64) -> (r: String)
    ensures
        r@ == duration_label(elapsed_secs as int),
{
    proof {
        reveal_strlit(":");
        reveal_strlit(":00:00");
        reveal_strlit("0");
        reveal_strlit("-");
    }
    if elapsed_secs >= 0 {
        let u = elapsed_secs as u64;
        let hours = u64_to_dec(u / 3600);
        let mins = u64_to_dec2((u / 60) % 60);
        let secs = u64_to_dec2(u % 60);
        let r = hours.concat(":").concat(mins.as_str()).concat(":").concat(secs.as_str());
        proof {
            assert(r@ =~= duration_label(elapsed_secs as int));
        }
        r
    } else {
        let mag: u64 = if elapsed_secs == i64::MIN {
            9223372036854775808u64
        } else {
            (-elapsed_secs) as u64
        };
        let hmag = mag / 3600;
        let hours = if hmag == 0 {
            String::from_str("0")
        } else {
            String::from_str("-").concat(u64_to_dec(hmag).as_str())
        };
        let r = hours.concat(":00:00");
        proof {
            assert(mag as int == -(elapsed_secs as int));
            assert(r@ =~= duration_label(elapsed_secs as int));
        }
        r
    }
}

/// Formats the elapsed time between an RFC 3339 start timestamp and the
/// current time `now_secs` (whole seconds since the Unix epoch) as
/// `H:MM:SS`.
///
/// Returns `Err(TimestampParseError)` exactly when `started_at` is not a
/// valid RFC 3339 string.
pub fn format_elapsed(started_at: &str, now_secs: i64) -> (r: Result<String, TimestampParseError>)
    requires
        -MAX_CLOCK_SECS <= now_secs <= MAX_CLOCK_SECS,
    ensures
        match r {
            Ok(label) => rfc3339_secs(started_at@) is Some && label@ == duration_label(
                now_secs as int - rfc3339_secs(started_at@)->0,
            ),
            Err(_) => rfc3339_secs(started_at@) is None,
        },
{
    match parse_rfc3339_secs(started_at) {
        Some(start) => {
            let elapsed = now_secs - start;
            Ok(format_duration(elapsed))
        },
        None => Err(TimestampParseError),
    }
}

} // verus!
