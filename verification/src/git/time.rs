//! Relative time labels ("2 hr ago").
use std::time::{Duration, SystemTime, SystemTimeError, UNIX_EPOCH};

use vstd::prelude::*;

use crate::text::{decimal, push_decimal};

verus! {

#[verifier::external_type_specification]
#[verifier::external_body]
pub struct ExSystemTime(SystemTime);

#[verifier::external_type_specification]
#[verifier::external_body]
pub struct ExSystemTimeError(SystemTimeError);

/// `SystemTime::now`: the system clock's reading; nothing is claimed of it.
#[verifier::external_body]
fn system_now() -> SystemTime {
    SystemTime::now()
}

/// `SystemTime::duration_since` the Unix epoch: the time since the epoch, or,
/// for a reading before it, the error that holds the time until the epoch;
/// nothing is claimed of either, which are the clock's.
#[verifier::external_body]
fn since_epoch(t: &SystemTime) -> Result<Duration, SystemTimeError> {
    t.duration_since(UNIX_EPOCH)
}

/// `SystemTimeError::duration`: how far the reading lay before the epoch;
/// nothing is claimed of it.
#[verifier::external_body]
fn error_duration(e: &SystemTimeError) -> Duration {
    e.duration()
}

/// `Duration::as_secs`: the whole seconds of a duration; nothing is claimed
/// of the value, which depends on the clock that produced it.
#[verifier::external_body]
fn whole_secs(d: &Duration) -> u64 {
    d.as_secs()
}

/// `Duration::subsec_nanos`: the nanoseconds beyond the whole seconds of a
/// duration; nothing is claimed of the value, which depends on the clock.
#[verifier::external_body]
fn fraction_nanos(d: &Duration) -> u32 {
    d.subsec_nanos()
}

/// The clock's reading in seconds since the Unix epoch, rounded down (so a
/// reading half a second before the epoch is -1), kept within the range of
/// `i64`.  The value is the clock's.
fn now_timestamp() -> i64 {
    let now = system_now();
    match since_epoch(&now) {
        Ok(d) => {
            let s = whole_secs(&d);
            if s > i64::MAX as u64 {
                i64::MAX
            } else {
                s as i64
            }
        },
        Err(e) => {
            let d = error_duration(&e);
            let s = whole_secs(&d);
            if s > i64::MAX as u64 {
                i64::MIN
            } else if fraction_nanos(&d) > 0 {
                -(s as i64) - 1
            } else {
                -(s as i64)
            }
        },
    }
}

/// The label for an age of `secs` seconds: under a minute "just now"; then
/// whole minutes, hours, days, weeks (days / 7), months (days / 30) or years
/// (days / 365), each used while it stays under the next unit.
pub open spec fn age_label(secs: int) -> Seq<char> {
    if secs < 60 {
        "just now"@
    } else if secs / 60 < 60 {
        decimal((secs / 60) as nat) + " min ago"@
    } else if secs / 3600 < 24 {
        decimal((secs / 3600) as nat) + " hr ago"@
    } else if secs / 86400 < 7 {
        decimal((secs / 86400) as nat) + " days ago"@
    } else if secs / 86400 / 7 < 4 {
        decimal((secs / 86400 / 7) as nat) + " wk ago"@
    } else if secs / 86400 / 30 < 12 {
        decimal((secs / 86400 / 30) as nat) + " mo ago"@
    } else {
        decimal((secs / 86400 / 365) as nat) + " yr ago"@
    }
}

/// `x` brought into the range of `i64`.
pub open spec fn clamp_i64(x: int) -> int {
    if x > i64::MAX {
        i64::MAX as int
    } else if x < i64::MIN {
        i64::MIN as int
    } else {
        x
    }
}

/// The label shown at clock reading `now` for a moment `time` (both in
/// seconds since the Unix epoch).
pub open spec fn label_at(now: i64, time: i64) -> Seq<char> {
    age_label(clamp_i64(now - time))
}

/// The label for an age given in seconds.
pub fn age_label_for(secs: i64) -> (res: String)
    ensures
        res@ == age_label(secs as int),
{
    if secs < 60 {
        return crate::text::owned("just now");
    }
    let s = secs as u64;
    let minutes = s / 60;
    let hours = s / 3600;
    let days = s / 86400;
    let mut out = String::new();
    if minutes < 60 {
        push_decimal(&mut out, minutes);
        out.append(" min ago");
    } else if hours < 24 {
        push_decimal(&mut out, hours);
        out.append(" hr ago");
    } else if days < 7 {
        push_decimal(&mut out, days);
        out.append(" days ago");
    } else if days / 7 < 4 {
        push_decimal(&mut out, days / 7);
        out.append(" wk ago");
    } else if days / 30 < 12 {
        push_decimal(&mut out, days / 30);
        out.append(" mo ago");
    } else {
        push_decimal(&mut out, days / 365);
        out.append(" yr ago");
    }
    out
}

/// The label shown at clock reading `now` (seconds since the Unix epoch) for
/// a moment `time`: the label of the age `now - time`, kept within `i64`.
pub fn label_for(now: i64, time: i64) -> (res: String)
    ensures
        res@ == label_at(now, time),
{
    let secs = if time < 0 && now > i64::MAX + time {
        i64::MAX
    } else if time > 0 && now < i64::MIN + time {
        i64::MIN
    } else {
        now - time
    };
    age_label_for(secs)
}

/// Format a timestamp (seconds since the Unix epoch) as relative time (e.g.,
/// "2 hr ago", "3 days ago").  The age is read from the clock: the result is
/// `label_for` of the clock's reading and `time`.
pub fn format_relative_time(time: i64) -> (res: String)
    ensures
        exists|now: i64| res@ == #[trigger] label_at(now, time),
{
    let now = now_timestamp();
    label_for(now, time)
}

} // verus!
