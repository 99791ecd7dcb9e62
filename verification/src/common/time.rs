//! Project and build age: how long ago the project started (in days) and the
//! program was built (in minutes), in friendly English text.
use vstd::prelude::*;
use vstd::string::*;

use crate::text::{append_string, dec, u64_to_string};

verus! {

/// Unix time of the project's start (2024-12-23 01:30:48 UTC).
pub const EPOCH_SECS: u64 = 1734915448;

/// `"s"` unless `n` is one.
pub open spec fn plural_suffix(n: nat) -> Seq<char> {
    if n == 1 {
        Seq::empty()
    } else {
        "s"@
    }
}

/// `n` followed by the unit name, pluralized unless `n` is one.
pub open spec fn counted(n: nat, unit: Seq<char>) -> Seq<char> {
    dec(n) + " "@ + unit + plural_suffix(n)
}

/// Age of the project, with days as the smallest unit.
#[derive(Debug, Clone, Copy)]
pub struct ProjectAge {
    pub years: u64,
    pub months: u64,
    pub days: u64,
}

/// The age text of a project age: the non-zero parts among years, months and
/// days, joined by `and` (two parts) or `, ` and `, and` (three parts).
pub open spec fn spec_project_age_text(y: nat, m: nat, d: nat) -> Seq<char> {
    if y == 0 && m == 0 && d == 0 {
        "less than 1 day"@
    } else if y == 0 && m == 0 {
        counted(d, "day"@)
    } else if y == 0 && d == 0 {
        counted(m, "month"@)
    } else if y == 0 {
        counted(m, "month"@) + " and "@ + counted(d, "day"@)
    } else if m == 0 && d == 0 {
        counted(y, "year"@)
    } else if m == 0 {
        counted(y, "year"@) + " and "@ + counted(d, "day"@)
    } else if d == 0 {
        counted(y, "year"@) + " and "@ + counted(m, "month"@)
    } else {
        counted(y, "year"@) + ", "@ + counted(m, "month"@) + ", and "@ + counted(d, "day"@)
    }
}

/// The age of `total_days` days: 365-day years, then 30-day months of what is
/// left after taking off one day for every four years (never below zero).
pub open spec fn spec_from_days(total_days: nat) -> (nat, nat, nat) {
    let years = total_days / 365;
    let remaining = total_days % 365;
    let leap = years / 4;
    let adjusted = if remaining >= leap {
        (remaining - leap) as nat
    } else {
        0nat
    };
    (years, adjusted / 30, adjusted % 30)
}

/// `n` followed by `unit`, pluralized unless `n` is one.
fn counted_string(n: u64, unit: &str) -> (r: String)
    ensures
        r@ == counted(n as nat, unit@),
{
    let mut s = u64_to_string(n);
    s.append(" ");
    s.append(unit);
    if n != 1 {
        s.append("s");
    } else {
        proof {
            reveal_strlit("");
        }
        assert(s@ =~= s@ + Seq::<char>::empty());
    }
    s
}

impl ProjectAge {
    /// The age of the project at Unix time `now_secs`, which lies no earlier
    /// than the project's start.
    pub fn since_epoch(now_secs: u64) -> (r: Self)
        requires
            now_secs >= EPOCH_SECS,
        ensures
            (r.years as nat, r.months as nat, r.days as nat) == spec_from_days(
                ((now_secs - EPOCH_SECS) / 86400) as nat,
            ),
    {
        Self::from_days((now_secs - EPOCH_SECS) / 86400)
    }

    /// The age of `total_days` days.
    pub fn from_days(total_days: u64) -> (r: Self)
        ensures
            (r.years as nat, r.months as nat, r.days as nat) == spec_from_days(total_days as nat),
    {
        if total_days == 0 {
            return Self { years: 0, months: 0, days: 0 };
        }
        let years = total_days / 365;
        let remaining_days = total_days % 365;
        let leap_adjustment = years / 4;
        let adjusted_days = remaining_days.saturating_sub(leap_adjustment);
        let months = adjusted_days / 30;
        let days = adjusted_days % 30;
        Self { years, months, days }
    }

    /// The age as text, such as `1 year, 2 months, and 3 days`.
    pub fn to_string(&self) -> (r: String)
        ensures
            r@ == spec_project_age_text(self.years as nat, self.months as nat, self.days as nat),
    {
        let (y, m, d) = (self.years, self.months, self.days);
        if y == 0 && m == 0 && d == 0 {
            String::from_str("less than 1 day")
        } else if y == 0 && m == 0 {
            counted_string(d, "day")
        } else if y == 0 && d == 0 {
            counted_string(m, "month")
        } else if y == 0 {
            let mut s = counted_string(m, "month");
            s.append(" and ");
            append_string(&mut s, counted_string(d, "day"));
            s
        } else if m == 0 && d == 0 {
            counted_string(y, "year")
        } else if m == 0 {
            let mut s = counted_string(y, "year");
            s.append(" and ");
            append_string(&mut s, counted_string(d, "day"));
            s
        } else if d == 0 {
            let mut s = counted_string(y, "year");
            s.append(" and ");
            append_string(&mut s, counted_string(m, "month"));
            s
        } else {
            let mut s = counted_string(y, "year");
            s.append(", ");
            append_string(&mut s, counted_string(m, "month"));
            s.append(", and ");
            append_string(&mut s, counted_string(d, "day"));
            s
        }
    }
}

/// Age of the build, with minutes as the smallest unit.
#[derive(Debug, Clone, Copy)]
pub struct BuildAge {
    pub minutes: u64,
}

/// The age text of a build age of `m` minutes.
pub open spec fn spec_build_age_text(m: nat) -> Seq<char> {
    if m == 0 {
        "just now"@
    } else if m == 1 {
        "1 minute"@
    } else if m < 60 {
        dec(m) + " minutes"@
    } else if m < 120 {
        if m % 60 == 0 {
            "1 hour"@
        } else {
            "1 hour and "@ + counted(m % 60, "minute"@)
        }
    } else if m < 1440 {
        if m % 60 == 0 {
            counted(m / 60, "hour"@)
        } else {
            counted(m / 60, "hour"@) + " and "@ + counted(m % 60, "minute"@)
        }
    } else {
        if (m % 1440) / 60 == 0 {
            counted(m / 1440, "day"@)
        } else {
            counted(m / 1440, "day"@) + " and "@ + counted((m % 1440) / 60, "hour"@)
        }
    }
}

impl BuildAge {
    /// The age of the build at Unix time `now_secs` for a build made at Unix
    /// time `build_secs`, no later than `now_secs`.
    pub fn since_build(now_secs: u64, build_secs: u64) -> (r: Self)
        requires
            now_secs >= build_secs,
        ensures
            r.minutes == (now_secs - build_secs) / 60,
    {
        Self { minutes: (now_secs - build_secs) / 60 }
    }

    /// The age as text, such as `1 hour and 5 minutes`.
    pub fn to_string(&self) -> (r: String)
        ensures
            r@ == spec_build_age_text(self.minutes as nat),
    {
        let m = self.minutes;
        if m == 0 {
            String::from_str("just now")
        } else if m == 1 {
            String::from_str("1 minute")
        } else if m < 60 {
            let mut s = u64_to_string(m);
            s.append(" minutes");
            s
        } else if m < 120 {
            let mins = m % 60;
            if mins == 0 {
                String::from_str("1 hour")
            } else {
                let mut s = String::from_str("1 hour and ");
                append_string(&mut s, counted_string(mins, "minute"));
                s
            }
        } else if m < 1440 {
            let hours = m / 60;
            let mins = m % 60;
            if mins == 0 {
                counted_string(hours, "hour")
            } else {
                let mut s = counted_string(hours, "hour");
                s.append(" and ");
                append_string(&mut s, counted_string(mins, "minute"));
                s
            }
        } else {
            let days = m / 1440;
            let remaining_hours = (m % 1440) / 60;
            if remaining_hours == 0 {
                counted_string(days, "day")
            } else {
                let mut s = counted_string(days, "day");
                s.append(" and ");
                append_string(&mut s, counted_string(remaining_hours, "hour"));
                s
            }
        }
    }
}

} // verus!
