//! Elapsed times and ages as the tables show them.

use vstd::prelude::*;
use vstd::string::*;
use crate::model::Timestamp;
use crate::text::{decimal, decimal_text, digits_value, is_digit, lemma_decimal_digits, text_eq};

verus! {

/// The nanoseconds from `start` to `end`, negative when `end` is earlier.
pub open spec fn nanos_between(start: Timestamp, end: Timestamp) -> int {
    (end.seconds - start.seconds) * 1_000_000_000 + (end.nanos - start.nanos)
}

/// The whole seconds from `start` to `end`, zero when `end` is not later,
/// and at most the largest `i64`.
pub open spec fn spec_elapsed_seconds(start: Timestamp, end: Timestamp) -> int {
    let n = nanos_between(start, end);
    if n <= 0 {
        0
    } else if n / 1_000_000_000 > i64::MAX {
        i64::MAX as int
    } else {
        n / 1_000_000_000
    }
}

/// The whole seconds from `start` to `end`, zero when `end` is not later.
pub fn elapsed_seconds(start: Timestamp, end: Timestamp) -> (r: i64)
    ensures
        r == spec_elapsed_seconds(start, end),
        r >= 0,
{
    let n: i128 = (end.seconds as i128 - start.seconds as i128) * 1_000_000_000i128 + (end.nanos
        as i128 - start.nanos as i128);
    if n <= 0 {
        0
    } else {
        let q = n / 1_000_000_000i128;
        if q > i64::MAX as i128 {
            i64::MAX
        } else {
            q as i64
        }
    }
}

/// A duration in seconds written as hours and minutes, minutes and seconds,
/// or seconds, as the elapsed column shows it. A negative count shows only
/// its seconds part, with its sign.
pub open spec fn spec_compact_duration(seconds: int) -> Seq<char> {
    if seconds >= 0 {
        let hours = seconds / 3600;
        let minutes = (seconds % 3600) / 60;
        let secs = seconds % 60;
        if hours > 0 {
            decimal(hours as nat) + "h"@ + decimal(minutes as nat) + "m"@
        } else if minutes > 0 {
            decimal(minutes as nat) + "m"@ + decimal(secs as nat) + "s"@
        } else {
            decimal(secs as nat) + "s"@
        }
    } else {
        let rest = (-seconds) % 60;
        if rest == 0 {
            "0s"@
        } else {
            "-"@ + decimal(rest as nat) + "s"@
        }
    }
}

/// A duration in seconds written compactly, such as `1h2m`, `3m4s` or `5s`.
pub fn compact_duration(seconds: i64) -> (r: String)
    ensures
        r@ == spec_compact_duration(seconds as int),
{
    if seconds >= 0 {
        let hours = seconds / 3600;
        let minutes = (seconds % 3600) / 60;
        let secs = seconds % 60;
        if hours > 0 {
            let mut out = decimal_text(hours as u64);
            out.append("h");
            out.append(decimal_text(minutes as u64).as_str());
            out.append("m");
            out
        } else if minutes > 0 {
            let mut out = decimal_text(minutes as u64);
            out.append("m");
            out.append(decimal_text(secs as u64).as_str());
            out.append("s");
            out
        } else {
            let mut out = decimal_text(secs as u64);
            out.append("s");
            out
        }
    } else {
        let magnitude: i128 = -(seconds as i128);
        let rest = (magnitude % 60) as u64;
        if rest == 0 {
            "0s".to_owned()
        } else {
            let mut out = "-".to_owned();
            out.append(decimal_text(rest).as_str());
            out.append("s");
            out
        }
    }
}

/// The age column's text for an age in seconds.
pub open spec fn spec_age_text(seconds: int) -> Seq<char> {
    if seconds <= 59 {
        "less than a minute ago"@
    } else if seconds <= 89 {
        "about 1 minute ago"@
    } else if seconds <= 3599 {
        "about "@ + decimal((seconds / 60) as nat) + " minutes ago"@
    } else if seconds <= 5399 {
        "about 1 hour ago"@
    } else if seconds <= 86_399 {
        "about "@ + decimal((seconds / 3600) as nat) + " hours ago"@
    } else if seconds <= 129_599 {
        "about 1 day ago"@
    } else {
        "about "@ + decimal((seconds / 86_400) as nat) + " days ago"@
    }
}

/// The age column's text for an age in seconds that is not negative.
pub fn age_text(seconds: i64) -> (r: String)
    requires
        seconds >= 0,
    ensures
        r@ == spec_age_text(seconds as int),
{
    if seconds <= 59 {
        "less than a minute ago".to_owned()
    } else if seconds <= 89 {
        "about 1 minute ago".to_owned()
    } else if seconds <= 3599 {
        let mut out = "about ".to_owned();
        out.append(decimal_text((seconds / 60) as u64).as_str());
        out.append(" minutes ago");
        out
    } else if seconds <= 5399 {
        "about 1 hour ago".to_owned()
    } else if seconds <= 86_399 {
        let mut out = "about ".to_owned();
        out.append(decimal_text((seconds / 3600) as u64).as_str());
        out.append(" hours ago");
        out
    } else if seconds <= 129_599 {
        "about 1 day ago".to_owned()
    } else {
        let mut out = "about ".to_owned();
        out.append(decimal_text((seconds / 86_400) as u64).as_str());
        out.append(" days ago");
        out
    }
}

/// How long ago `created_at` was at `now`.
pub fn age(created_at: Timestamp, now: Timestamp) -> (r: String)
    ensures
        r@ == spec_age_text(spec_elapsed_seconds(created_at, now)),
{
    age_text(elapsed_seconds(created_at, now))
}

/// How long a run has taken: until its last update once it is completed,
/// until `now` while it is not; `-` when it has not started.
pub open spec fn spec_elapsed(
    started_at: Option<Timestamp>,
    updated_at: Timestamp,
    status: Seq<char>,
    now: Timestamp,
) -> Seq<char> {
    match started_at {
        None => "-"@,
        Some(start) => {
            let end = if status == "completed"@ {
                updated_at
            } else {
                now
            };
            spec_compact_duration(spec_elapsed_seconds(start, end))
        },
    }
}

/// How long a run has taken at `now`, as the elapsed column shows it.
pub fn elapsed(started_at: Option<Timestamp>, updated_at: Timestamp, status: &str, now: Timestamp) -> (r: String)
    ensures
        r@ == spec_elapsed(started_at, updated_at, status@, now),
{
    match started_at {
        None => "-".to_owned(),
        Some(start) => {
            let end = if text_eq(status, "completed") {
                updated_at
            } else {
                now
            };
            compact_duration(elapsed_seconds(start, end))
        },
    }
}

/// Whether `t` is a non-empty run of decimal digits.
pub open spec fn is_numeral(t: Seq<char>) -> bool {
    t.len() > 0 && forall|j: int| 0 <= j < t.len() ==> is_digit(#[trigger] t[j])
}

/// A compact duration reads back as the time it writes: below a minute the
/// seconds followed by `s`; below an hour the minutes, `m`, the seconds
/// below sixty and `s`, together the same number of seconds; from an hour
/// on the hours, `h`, the minutes below sixty and `m`, together the seconds
/// less those past the last whole minute.
pub proof fn lemma_compact_duration_reads_back(seconds: int)
    requires
        seconds >= 0,
    ensures
        seconds < 60 ==> exists|a: Seq<char>|
            #![trigger is_numeral(a)]
            spec_compact_duration(seconds) == a + "s"@ && is_numeral(a) && digits_value(a) == seconds,
        60 <= seconds < 3600 ==> exists|a: Seq<char>, b: Seq<char>|
            #![trigger is_numeral(a), is_numeral(b)]
            spec_compact_duration(seconds) == a + "m"@ + b + "s"@ && is_numeral(a) && is_numeral(b)
                && digits_value(b) < 60 && digits_value(a) * 60 + digits_value(b) == seconds,
        seconds >= 3600 ==> exists|a: Seq<char>, b: Seq<char>|
            #![trigger is_numeral(a), is_numeral(b)]
            spec_compact_duration(seconds) == a + "h"@ + b + "m"@ && is_numeral(a) && is_numeral(b)
                && digits_value(b) < 60 && digits_value(a) * 3600 + digits_value(b) * 60
                == seconds - seconds % 60,
{
    let h = seconds / 3600;
    let m = (seconds % 3600) / 60;
    let sec = seconds % 60;
    lemma_decimal_digits(h as nat);
    lemma_decimal_digits(m as nat);
    lemma_decimal_digits(sec as nat);
    assert(seconds == h * 3600 + m * 60 + sec);
    if seconds < 60 {
        assert(is_numeral(decimal(sec as nat)));
    } else if seconds < 3600 {
        assert(h == 0);
        assert(m > 0);
        assert(is_numeral(decimal(m as nat)) && is_numeral(decimal(sec as nat)));
    } else {
        assert(h > 0);
        assert(is_numeral(decimal(h as nat)) && is_numeral(decimal(m as nat)));
    }
}

/// An age text names the whole minutes, hours or days that have passed:
/// between ninety seconds and an hour the minutes, between ninety minutes
/// and a day the hours, from a day and a half on the days, each the count
/// of whole units in the age.
pub proof fn lemma_age_text_counts_whole_units(seconds: int)
    requires
        seconds >= 0,
    ensures
        90 <= seconds < 3600 ==> exists|a: Seq<char>|
            #![trigger is_numeral(a)]
            spec_age_text(seconds) == "about "@ + a + " minutes ago"@ && is_numeral(a)
                && digits_value(a) * 60 <= seconds < digits_value(a) * 60 + 60,
        5400 <= seconds < 86_400 ==> exists|a: Seq<char>|
            #![trigger is_numeral(a)]
            spec_age_text(seconds) == "about "@ + a + " hours ago"@ && is_numeral(a)
                && digits_value(a) * 3600 <= seconds < digits_value(a) * 3600 + 3600,
        seconds >= 129_600 ==> exists|a: Seq<char>|
            #![trigger is_numeral(a)]
            spec_age_text(seconds) == "about "@ + a + " days ago"@ && is_numeral(a)
                && digits_value(a) * 86_400 <= seconds < digits_value(a) * 86_400 + 86_400,
{
    lemma_decimal_digits((seconds / 60) as nat);
    lemma_decimal_digits((seconds / 3600) as nat);
    lemma_decimal_digits((seconds / 86_400) as nat);
    if 90 <= seconds < 3600 {
        assert(is_numeral(decimal((seconds / 60) as nat)));
    } else if 5400 <= seconds < 86_400 {
        assert(is_numeral(decimal((seconds / 3600) as nat)));
    } else if seconds >= 129_600 {
        assert(is_numeral(decimal((seconds / 86_400) as nat)));
    }
}

} // verus!
