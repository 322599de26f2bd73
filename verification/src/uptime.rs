//! Uptime conversion: seconds since boot become weeks, days, hours and
//! minutes by integer division, carrying each remainder downward; what is
//! left under one minute is dropped, never rounded up.

use vstd::prelude::*;

use crate::text::{dec_rep, u64_to_string};

verus! {

pub const SECONDS_PER_MINUTE: u64 = 60;

pub const SECONDS_PER_HOUR: u64 = 3600;

pub const SECONDS_PER_DAY: u64 = 86400;

pub const SECONDS_PER_WEEK: u64 = 604800;

/// Whole weeks in `secs` seconds.
pub open spec fn weeks_of(secs: nat) -> nat {
    secs / 604800
}

/// Whole days left after the weeks are taken out.
pub open spec fn days_of(secs: nat) -> nat {
    (secs % 604800) / 86400
}

/// Whole hours left after the days are taken out.
pub open spec fn hours_of(secs: nat) -> nat {
    ((secs % 604800) % 86400) / 3600
}

/// Whole minutes left after the hours are taken out; seconds under one
/// minute are dropped.
pub open spec fn minutes_of(secs: nat) -> nat {
    (((secs % 604800) % 86400) % 3600) / 60
}

/// Splits an uptime in seconds into whole weeks, days, hours and minutes.
pub fn uptime_parts(secs: u64) -> (r: (u64, u64, u64, u64))
    ensures
        r.0 as nat == weeks_of(secs as nat),
        r.1 as nat == days_of(secs as nat),
        r.2 as nat == hours_of(secs as nat),
        r.3 as nat == minutes_of(secs as nat),
        r.1 < 7,
        r.2 < 24,
        r.3 < 60,
{
    let weeks = secs / SECONDS_PER_WEEK;
    let rem = secs % SECONDS_PER_WEEK;
    let days = rem / SECONDS_PER_DAY;
    let rem = rem % SECONDS_PER_DAY;
    let hours = rem / SECONDS_PER_HOUR;
    let rem = rem % SECONDS_PER_HOUR;
    let minutes = rem / SECONDS_PER_MINUTE;
    (weeks, days, hours, minutes)
}

/// A count with its unit name: the count in decimal, a space, the unit,
/// and a plural `s` unless the count is exactly one.
pub open spec fn unit_text(n: nat, unit: Seq<char>) -> Seq<char> {
    dec_rep(n) + " "@ + unit + (if n == 1 {
        Seq::<char>::empty()
    } else {
        "s"@
    })
}

/// The rendered uptime: weeks, days, hours and minutes, comma-separated,
/// each unit pluralized unless its count is one. All four parts are always
/// shown, zero counts included.
pub open spec fn uptime_text(secs: nat) -> Seq<char> {
    unit_text(weeks_of(secs), "week"@) + ", "@ + unit_text(days_of(secs), "day"@) + ", "@
        + unit_text(hours_of(secs), "hour"@) + ", "@ + unit_text(minutes_of(secs), "minute"@)
}

/// Writes one count with its unit name, pluralized unless the count is one.
fn unit_str(n: u64, unit: &str) -> (r: String)
    ensures
        r@ == unit_text(n as nat, unit@),
{
    let mut s = u64_to_string(n);
    s.append(" ");
    s.append(unit);
    if n != 1 {
        s.append("s");
    }
    proof {
        assert(s@ =~= unit_text(n as nat, unit@));
    }
    s
}

/// Renders an uptime in seconds as its weeks, days, hours and minutes.
pub fn format_uptime(secs: u64) -> (r: String)
    ensures
        r@ == uptime_text(secs as nat),
{
    let parts = uptime_parts(secs);
    let mut s = unit_str(parts.0, "week");
    s.append(", ");
    s.append(unit_str(parts.1, "day").as_str());
    s.append(", ");
    s.append(unit_str(parts.2, "hour").as_str());
    s.append(", ");
    s.append(unit_str(parts.3, "minute").as_str());
    proof {
        assert(s@ =~= uptime_text(secs as nat));
    }
    s
}

} // verus!
