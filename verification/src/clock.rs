//! Timestamps: parsing RFC 3339 times (with the `time` crate) into Unix
//! nanoseconds, and describing how long ago a time was.
use vstd::prelude::*;
use time::format_description::well_known::Rfc3339;
use time::OffsetDateTime;
use crate::text::{dec, push_dec, push_str};

verus! {

/// The instant an RFC 3339 text denotes, in nanoseconds since the Unix epoch
/// (`None` when the text does not parse).
pub uninterp spec fn rfc3339_unix_nanos(s: Seq<char>) -> Option<i128>;

/// The bound on the nanosecond timestamps of `OffsetDateTime`: its years lie
/// within ±999 999 (±9 999 without the crate's `large-dates` feature).
pub open spec fn nanos_in_range(n: i128) -> bool {
    -100_000_000_000_000_000_000_000 < n < 100_000_000_000_000_000_000_000
}

/// `OffsetDateTime::parse(value, &Rfc3339)` followed by `unix_timestamp_nanos`.
#[verifier::external_body]
fn rfc3339_to_unix_nanos(value: &str) -> (r: Option<i128>)
    ensures
        r == rfc3339_unix_nanos(value@),
        r matches Some(n) ==> nanos_in_range(n),
{
    OffsetDateTime::parse(value, &Rfc3339).ok().map(|t| t.unix_timestamp_nanos())
}

/// `OffsetDateTime::now_utc().unix_timestamp_nanos()`: the current time.
/// Nothing is stated of which instant it is, only the type's range.
#[verifier::external_body]
fn now_unix_nanos() -> (r: i128)
    ensures
        nanos_in_range(r),
{
    OffsetDateTime::now_utc().unix_timestamp_nanos()
}

/// Parses an RFC 3339 timestamp into nanoseconds since the Unix epoch.
pub fn parse_rfc3339_timestamp(value: &str) -> (r: Option<i128>)
    ensures
        r == rfc3339_unix_nanos(value@),
        r matches Some(n) ==> nanos_in_range(n),
{
    rfc3339_to_unix_nanos(value)
}

/// `N UNIT ago`, singular for 1.
pub open spec fn ago_text(n: nat, unit: Seq<char>) -> Seq<char> {
    dec(n) + " "@ + unit + (if n == 1 { " ago"@ } else { "s ago"@ })
}

/// `human_time_ago` for an age of `secs` whole seconds: seconds under a
/// minute, minutes under an hour, hours under a day, then days.
pub open spec fn time_ago_text(secs: nat) -> Seq<char> {
    if secs < 60 {
        ago_text(secs, "second"@)
    } else if secs < 3600 {
        ago_text(secs / 60, "minute"@)
    } else if secs < 86400 {
        ago_text(secs / 3600, "hour"@)
    } else {
        ago_text(secs / 86400, "day"@)
    }
}

/// An age is told in the largest unit it reaches, counted in whole units
/// and singular for one: under a minute in seconds, under an hour in
/// minutes, under a day (86400 seconds) in hours, then in days, of which
/// there is always at least one.
pub proof fn lemma_time_ago_units(secs: nat)
    ensures
        secs < 60 ==> time_ago_text(secs) == dec(secs) + (if secs == 1 { " second ago"@ } else { " seconds ago"@ }),
        60 <= secs < 3600 ==> time_ago_text(secs) == dec(secs / 60) + (if secs / 60 == 1 {
            " minute ago"@
        } else {
            " minutes ago"@
        }),
        3600 <= secs < 86400 ==> time_ago_text(secs) == dec(secs / 3600) + (if secs / 3600 == 1 {
            " hour ago"@
        } else {
            " hours ago"@
        }),
        86400 <= secs ==> secs / 86400 >= 1 && time_ago_text(secs) == dec(secs / 86400) + (if secs / 86400 == 1 {
            " day ago"@
        } else {
            " days ago"@
        }),
{
    reveal_strlit(" ");
    reveal_strlit(" ago");
    reveal_strlit("s ago");
    reveal_strlit("second");
    reveal_strlit("minute");
    reveal_strlit("hour");
    reveal_strlit("day");
    reveal_strlit(" second ago");
    reveal_strlit(" seconds ago");
    reveal_strlit(" minute ago");
    reveal_strlit(" minutes ago");
    reveal_strlit(" hour ago");
    reveal_strlit(" hours ago");
    reveal_strlit(" day ago");
    reveal_strlit(" days ago");
    let n: nat = if secs < 60 {
        secs
    } else if secs < 3600 {
        secs / 60
    } else if secs < 86400 {
        secs / 3600
    } else {
        secs / 86400
    };
    let unit: Seq<char> = if secs < 60 {
        "second"@
    } else if secs < 3600 {
        "minute"@
    } else if secs < 86400 {
        "hour"@
    } else {
        "day"@
    };
    assert(time_ago_text(secs) == ago_text(n, unit));
    assert(ago_text(n, unit) =~= dec(n) + (" "@ + unit + (if n == 1 { " ago"@ } else { "s ago"@ })));
    if secs < 60 {
        assert(" "@ + "second"@ + " ago"@ =~= " second ago"@);
        assert(" "@ + "second"@ + "s ago"@ =~= " seconds ago"@);
    } else if secs < 3600 {
        assert(" "@ + "minute"@ + " ago"@ =~= " minute ago"@);
        assert(" "@ + "minute"@ + "s ago"@ =~= " minutes ago"@);
    } else if secs < 86400 {
        assert(" "@ + "hour"@ + " ago"@ =~= " hour ago"@);
        assert(" "@ + "hour"@ + "s ago"@ =~= " hours ago"@);
    } else {
        assert(" "@ + "day"@ + " ago"@ =~= " day ago"@);
        assert(" "@ + "day"@ + "s ago"@ =~= " days ago"@);
    }
}

/// The whole seconds from `ts` to `now` (none when `ts` is not before `now`).
pub open spec fn age_secs(now: i128, ts: i128) -> nat {
    if now > ts { ((now - ts) / 1_000_000_000) as nat } else { 0 }
}

fn push_ago(out: &mut String, n: u64, unit: &str)
    ensures
        final(out)@ == old(out)@ + ago_text(n as nat, unit@),
{
    push_dec(out, n);
    push_str(out, " ");
    push_str(out, unit);
    if n == 1 {
        push_str(out, " ago");
    } else {
        push_str(out, "s ago");
    }
    assert(final(out)@ =~= old(out)@ + ago_text(n as nat, unit@));
}

/// How long ago `ts` was at time `now`, both in Unix nanoseconds.
pub fn time_ago_at(now: i128, ts: i128) -> (r: String)
    requires
        nanos_in_range(now),
        nanos_in_range(ts),
    ensures
        r@ == time_ago_text(age_secs(now, ts)),
{
    let secs: u64 = if now > ts {
        let d = (now - ts) / 1_000_000_000;
        assert(d < 0x1_0000_0000_0000_0000);
        d as u64
    } else {
        0
    };
    let mut out = String::new();
    if secs < 60 {
        push_ago(&mut out, secs, "second");
    } else if secs < 3600 {
        push_ago(&mut out, secs / 60, "minute");
    } else if secs < 86400 {
        push_ago(&mut out, secs / 3600, "hour");
    } else {
        push_ago(&mut out, secs / 86400, "day");
    }
    assert(out@ =~= time_ago_text(age_secs(now, ts)));
    out
}

/// How long ago `ts` (Unix nanoseconds) was, by the clock now.
pub fn human_time_ago(ts: i128) -> (r: String)
    requires
        nanos_in_range(ts),
    ensures
        exists|now: i128| nanos_in_range(now) && r@ == time_ago_text(#[trigger] age_secs(now, ts)),
{
    let now = now_unix_nanos();
    let r = time_ago_at(now, ts);
    assert(r@ == time_ago_text(age_secs(now, ts)));
    r
}

/// `format_updated_label`: the age of the update time, else of the creation
/// time, else `-`, at time `now`.
pub open spec fn updated_label_at(now: i128, updated: Option<Seq<char>>, created: Option<Seq<char>>) -> Seq<
    char,
> {
    let u = match updated {
        Some(s) => rfc3339_unix_nanos(s),
        None => None,
    };
    let c = match created {
        Some(s) => rfc3339_unix_nanos(s),
        None => None,
    };
    match u {
        Some(t) => time_ago_text(age_secs(now, t)),
        None => match c {
            Some(t) => time_ago_text(age_secs(now, t)),
            None => "-"@,
        },
    }
}

/// The "updated" column of a thread: how long ago it was updated (or
/// created), `-` when neither time parses.
pub fn format_updated_label(updated_at: Option<&str>, created_at: Option<&str>) -> (r: String)
    ensures
        exists|now: i128|
            nanos_in_range(now) && r@ == #[trigger] updated_label_at(
                now,
                crate::tool_format::opt_str(updated_at),
                crate::tool_format::opt_str(created_at),
            ),
{
    let now = now_unix_nanos();
    let r = format_updated_label_at(now, updated_at, created_at);
    assert(r@ == updated_label_at(
        now,
        crate::tool_format::opt_str(updated_at),
        crate::tool_format::opt_str(created_at),
    ));
    r
}

/// `format_updated_label` with the clock read given.
pub fn format_updated_label_at(now: i128, updated_at: Option<&str>, created_at: Option<&str>) -> (r: String)
    requires
        nanos_in_range(now),
    ensures
        r@ == updated_label_at(
            now,
            crate::tool_format::opt_str(updated_at),
            crate::tool_format::opt_str(created_at),
        ),
{
    let u = match updated_at {
        Some(s) => parse_rfc3339_timestamp(s),
        None => None,
    };
    match u {
        Some(t) => time_ago_at(now, t),
        None => {
            let c = match created_at {
                Some(s) => parse_rfc3339_timestamp(s),
                None => None,
            };
            match c {
                Some(t) => time_ago_at(now, t),
                None => {
                    let out = crate::text::owned("-");
                    out
                },
            }
        },
    }
}

} // verus!
