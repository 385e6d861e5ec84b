//! Instants as whole seconds since the Unix epoch, and the "time ago" text
//! shown for a reading.

use crate::decimal::{decimal, digits, format_decimal};
use vstd::prelude::*;
use vstd::string::StringExecFns;

verus! {

/// The instant that `chrono` reads out of a date-time text in its relaxed
/// RFC 3339 form, as whole seconds since the Unix epoch in UTC; `None` for a
/// text that it does not accept.
pub uninterp spec fn rfc3339_seconds(text: Seq<char>) -> Option<i64>;

/// Whether `chrono` can hold the instant that lies this many seconds from
/// the Unix epoch.
pub uninterp spec fn representable(seconds: i64) -> bool;

/// Parses a date-time text with `chrono`'s `FromStr` for `DateTime<Utc>` and
/// reads the result's `timestamp()`. Nothing is proved of the parser: the
/// contract only names what it returns.
#[verifier::external_body]
pub(crate) fn parse_seconds(text: &str) -> (seconds: Option<i64>)
    ensures
        seconds == rfc3339_seconds(text@),
{
    text.parse::<chrono::DateTime<chrono::Utc>>().ok().map(|instant| instant.timestamp())
}

/// Asks `chrono::DateTime::from_timestamp` whether it accepts a number of
/// seconds. Nothing is proved of its range: the contract only names the
/// answer.
#[verifier::external_body]
pub(crate) fn is_representable(seconds: i64) -> (accepted: bool)
    ensures
        accepted == representable(seconds),
{
    chrono::DateTime::from_timestamp(seconds, 0).is_some()
}

/// The text for an age in seconds: whole seconds under a minute, whole
/// minutes under an hour, whole hours under a day, whole days from there on.
/// An instant that lies ahead of `now` has a negative age and is shown in
/// seconds.
pub open spec fn age_text(age: int) -> Seq<char> {
    if age < 60 {
        decimal(age) + " seconds ago"@
    } else if age < 3600 {
        decimal(age / 60) + " minutes ago"@
    } else if age < 86400 {
        decimal(age / 3600) + " hours ago"@
    } else {
        decimal(age / 86400) + " days ago"@
    }
}

/// The text for a reading observed at `observed_at`, seen at `now`; a reading
/// without a known instant is shown as `unknown`.
pub open spec fn relative_text(observed_at: Option<i64>, now: i64) -> Seq<char> {
    match observed_at {
        Some(at) => age_text(now - at),
        None => "unknown"@,
    }
}

/// Describes how long before `now` a reading was observed.
pub fn relative_time(observed_at: Option<i64>, now: i64) -> (text: String)
    ensures
        text@ == relative_text(observed_at, now),
{
    match observed_at {
        None => String::from_str("unknown"),
        Some(at) => {
            let age: i128 = now as i128 - at as i128;
            if age < 60 {
                format_decimal(age).concat(" seconds ago")
            } else if age < 3600 {
                format_decimal(age / 60).concat(" minutes ago")
            } else if age < 86400 {
                format_decimal(age / 3600).concat(" hours ago")
            } else {
                format_decimal(age / 86400).concat(" days ago")
            }
        },
    }
}

/// Describes how long before `now` the instant written in `datetime` lies;
/// `unknown` where the text is no date-time.
pub fn format_time_ago(datetime: &str, now: i64) -> (text: String)
    ensures
        text@ == relative_text(rfc3339_seconds(datetime@), now),
{
    relative_time(parse_seconds(datetime), now)
}

/// A reading observed at this very instant is zero seconds old.
pub proof fn lemma_age_zero(now: i64)
    ensures
        relative_text(Some(now), now) == "0 seconds ago"@,
{
    reveal_strlit("0 seconds ago");
    reveal_strlit(" seconds ago");
    assert(digits(0) =~= seq!['0']);
    assert(relative_text(Some(now), now) =~= "0 seconds ago"@);
}

/// Ninety seconds is one minute: minutes are counted whole, rounding down.
pub proof fn lemma_age_ninety_seconds(observed_at: i64, now: i64)
    requires
        now - observed_at == 90,
    ensures
        relative_text(Some(observed_at), now) == "1 minutes ago"@,
{
    reveal_strlit("1 minutes ago");
    reveal_strlit(" minutes ago");
    assert(digits(1) =~= seq!['1']);
    assert(relative_text(Some(observed_at), now) =~= "1 minutes ago"@);
}

/// Ninety thousand seconds is one day: days are counted whole, rounding down.
pub proof fn lemma_age_ninety_thousand_seconds(observed_at: i64, now: i64)
    requires
        now - observed_at == 90000,
    ensures
        relative_text(Some(observed_at), now) == "1 days ago"@,
{
    reveal_strlit("1 days ago");
    reveal_strlit(" days ago");
    assert(digits(1) =~= seq!['1']);
    assert(relative_text(Some(observed_at), now) =~= "1 days ago"@);
}

/// A reading without a known instant is shown as `unknown`, whatever `now` is.
pub proof fn lemma_unknown_instant(now: i64)
    ensures
        relative_text(None, now) == "unknown"@,
{
}

/// The unit of the text follows the age: seconds under a minute, minutes
/// under an hour, hours under a day, days beyond.
pub proof fn lemma_age_buckets(observed_at: i64, now: i64)
    ensures
        now - observed_at < 60 ==> relative_text(Some(observed_at), now) == decimal(
            now - observed_at,
        ) + " seconds ago"@,
        60 <= now - observed_at < 3600 ==> relative_text(Some(observed_at), now) == digits(
            ((now - observed_at) / 60) as nat,
        ) + " minutes ago"@,
        3600 <= now - observed_at < 86400 ==> relative_text(Some(observed_at), now) == digits(
            ((now - observed_at) / 3600) as nat,
        ) + " hours ago"@,
        86400 <= now - observed_at ==> relative_text(Some(observed_at), now) == digits(
            ((now - observed_at) / 86400) as nat,
        ) + " days ago"@,
{
}

} // verus!
