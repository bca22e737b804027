//! The crawl-time window of the statistics commands: explicit bounds, or a
//! span such as `7d`, `2w` or `3m` counted back from now.

use vstd::prelude::*;
use crate::numbers::{parse_i64, parse_i64_seq};
use crate::pattern::{matched_group, matched_group_exec, opt_str_view};
use crate::text::{lowercase_of, str_eq, to_lowercase};

verus! {

/// The form of a span: a number, then `d` (days), `w` (weeks) or `m`
/// (months of thirty days), in either case.
pub const LAST_PATTERN: &'static str = "^(\\d+)([dDwWmM])$";

/// Why a time window was refused.
pub enum TimeArgError {
    /// The span does not have the form of [`LAST_PATTERN`].
    InvalidFormat(String),
    /// The number of the span does not parse as an `i64`.
    InvalidNumber(String),
    /// The unit of the span is not one of `d`, `w`, `m`.
    UnsupportedUnit(String),
}

/// Mathematical view of a [`TimeArgError`].
pub enum TimeArgErrorView {
    InvalidFormat(Seq<char>),
    InvalidNumber(Seq<char>),
    UnsupportedUnit(Seq<char>),
}

impl View for TimeArgError {
    type V = TimeArgErrorView;

    open spec fn view(&self) -> TimeArgErrorView {
        match self {
            TimeArgError::InvalidFormat(s) => TimeArgErrorView::InvalidFormat(s@),
            TimeArgError::InvalidNumber(s) => TimeArgErrorView::InvalidNumber(s@),
            TimeArgError::UnsupportedUnit(s) => TimeArgErrorView::UnsupportedUnit(s@),
        }
    }
}

/// The number of days a span asks for, given the digits the pattern
/// matched (none when it did not match the span `last`) and the unit
/// matched, in lower case.
pub open spec fn span_days_spec(last: Seq<char>, digits: Option<Seq<char>>, unit: Seq<char>) -> Result<int, TimeArgErrorView> {
    match digits {
        None => Err(TimeArgErrorView::InvalidFormat(last)),
        Some(d) => match parse_i64_seq(d) {
            None => Err(TimeArgErrorView::InvalidNumber(d)),
            Some(n) => if unit == "d"@ {
                Ok(n as int)
            } else if unit == "w"@ {
                Ok(n * 7)
            } else if unit == "m"@ {
                Ok(n * 30)
            } else {
                Err(TimeArgErrorView::UnsupportedUnit(unit))
            },
        },
    }
}

/// A week counts as seven days and a month as thirty: for the same
/// digits, the units `w` and `m` give seven and thirty times what `d`
/// gives, and fail as it does.
pub proof fn lemma_span_units(last: Seq<char>, digits: Option<Seq<char>>)
    ensures
        match span_days_spec(last, digits, "d"@) {
            Ok(n) => span_days_spec(last, digits, "w"@) == Ok::<int, TimeArgErrorView>(7 * n)
                && span_days_spec(last, digits, "m"@) == Ok::<int, TimeArgErrorView>(30 * n),
            Err(e) => span_days_spec(last, digits, "w"@) == Err::<int, TimeArgErrorView>(e)
                && span_days_spec(last, digits, "m"@) == Err::<int, TimeArgErrorView>(e),
        },
{
    reveal_strlit("d");
    reveal_strlit("w");
    reveal_strlit("m");
    assert("d"@ != "w"@) by {
        assert("d"@[0] != "w"@[0]);
    }
    assert("d"@ != "m"@) by {
        assert("d"@[0] != "m"@[0]);
    }
    assert("w"@ != "m"@) by {
        assert("w"@[0] != "m"@[0]);
    }
}

/// The view of a span's outcome.
pub open spec fn days_view(r: Result<i128, TimeArgError>) -> Result<int, TimeArgErrorView> {
    match r {
        Ok(d) => Ok(d as int),
        Err(e) => Err(e@),
    }
}

/// The number of days of the span `last`, given the digits and the
/// lower-case unit that the pattern matched.
pub fn span_days_from(last: &str, digits: Option<String>, unit: &str) -> (r: Result<i128, TimeArgError>)
    ensures
        days_view(r) == span_days_spec(last@, opt_str_view(digits), unit@),
{
    let d = match digits {
        Some(d) => d,
        None => return Err(TimeArgError::InvalidFormat(last.to_string())),
    };
    let n = match parse_i64(d.as_str()) {
        Some(n) => n,
        None => return Err(TimeArgError::InvalidNumber(d)),
    };
    if str_eq(unit, "d") {
        Ok(n as i128)
    } else if str_eq(unit, "w") {
        Ok(n as i128 * 7)
    } else if str_eq(unit, "m") {
        Ok(n as i128 * 30)
    } else {
        Err(TimeArgError::UnsupportedUnit(unit.to_string()))
    }
}

/// The lower-case unit of the span `last`, as the pattern matched it.
pub open spec fn span_unit(last: Seq<char>) -> Seq<char> {
    match matched_group(LAST_PATTERN@, last, 2) {
        Some(u) => lowercase_of(u),
        None => Seq::empty(),
    }
}

/// The number of days of the span `last`.
pub fn span_days(last: &str) -> (r: Result<i128, TimeArgError>)
    ensures
        days_view(r) == span_days_spec(last@, matched_group(LAST_PATTERN@, last@, 1), span_unit(last@)),
{
    let digits = matched_group_exec(LAST_PATTERN, last, 1);
    let unit = match matched_group_exec(LAST_PATTERN, last, 2) {
        Some(u) => to_lowercase(u.as_str()),
        None => String::new(),
    };
    proof {
        if matched_group(LAST_PATTERN@, last@, 2) is None {
            assert(unit@ =~= span_unit(last@));
        }
    }
    span_days_from(last, digits, unit.as_str())
}

/// The UTC date and time `secs` seconds after the Unix epoch as chrono
/// writes it with `%Y-%m-%d %H:%M:%S` (the form of SQLite's
/// `CURRENT_TIMESTAMP`); `None` outside chrono's range of dates.
pub uninterp spec fn utc_text_of(secs: i64) -> Option<Seq<char>>;

/// Makes the UTC date and time of `secs` (`DateTime::from_timestamp`) and
/// formats it (`DateTime::format`, then `to_string`). The contract names
/// the result only.
#[verifier::external_body]
fn utc_text(secs: i64) -> (r: Option<String>)
    ensures
        opt_str_view(r) == utc_text_of(secs),
{
    chrono::DateTime::from_timestamp(secs, 0).map(|t| t.format("%Y-%m-%d %H:%M:%S").to_string())
}

/// Seconds in a day.
pub const SECS_PER_DAY: i128 = 86400;

/// The bounds of the span of `days` days ending at the instant `now`
/// (seconds since the Unix epoch), as UTC texts comparable with the stored
/// crawl times: from `now - days` to `now`. `None` when the start is not a
/// second that fits an `i64`, or either instant is outside chrono's dates.
pub open spec fn span_bounds_spec(now: i64, days: int) -> Option<(Seq<char>, Seq<char>)> {
    let start = now - days * 86400;
    if i64::MIN <= start <= i64::MAX {
        match (utc_text_of(start as i64), utc_text_of(now)) {
            (Some(from), Some(to)) => Some((from, to)),
            _ => None,
        }
    } else {
        None
    }
}

/// The bounds of the span of `days` days ending at `now`.
pub fn span_bounds(now: i64, days: i128) -> (r: Option<(String, String)>)
    ensures
        match r {
            Some((from, to)) => span_bounds_spec(now, days as int) == Some((from@, to@)),
            None => span_bounds_spec(now, days as int) is None,
        },
{
    if days > 9223372036854775807 || days < -9223372036854775808 {
        assert(now - days * 86400 < i64::MIN || now - days * 86400 > i64::MAX) by (nonlinear_arith)
            requires
                days > 9223372036854775807 || days < -9223372036854775808,
                i64::MIN <= now <= i64::MAX,
        ;
        return None;
    }
    let start: i128 = now as i128 - days * SECS_PER_DAY;
    if start < -9223372036854775808 || start > 9223372036854775807 {
        return None;
    }
    let from = match utc_text(start as i64) {
        Some(f) => f,
        None => return None,
    };
    match utc_text(now) {
        Some(to) => Some((from, to)),
        None => None,
    }
}

/// The crawl-time window asked for.
pub enum TimeWindow {
    /// The bounds given, each optional.
    Between { from: Option<String>, to: Option<String> },
    /// The span of this many days up to now.
    LastDays(i128),
}

/// The window of the options `--from`, `--to` and `--last`: a span given
/// with `--last` wins over the bounds.
pub fn parse_time_args(from: Option<String>, to: Option<String>, last: Option<String>) -> (r: Result<TimeWindow, TimeArgError>)
    ensures
        last is None ==> (r matches Ok(TimeWindow::Between { from: f, to: t }) && opt_str_view(f) == opt_str_view(from)
            && opt_str_view(t) == opt_str_view(to)),
        last matches Some(l) ==> match span_days_spec(l@, matched_group(LAST_PATTERN@, l@, 1), span_unit(l@)) {
            Ok(d) => r matches Ok(TimeWindow::LastDays(x)) && x == d,
            Err(ev) => r matches Err(e) && e@ == ev,
        },
{
    match last {
        Some(l) => match span_days(l.as_str()) {
            Ok(d) => Ok(TimeWindow::LastDays(d)),
            Err(e) => Err(e),
        },
        None => Ok(TimeWindow::Between { from, to }),
    }
}

} // verus!
