use vstd::prelude::*;

verus! {

/// Look-back window used when none, or a non-positive one, is requested.
pub const DEFAULT_TREND_DAYS: i64 = 30;

/// Longest look-back window the analytics queries accept.
pub const MAX_TREND_DAYS: i64 = 90;

/// The look-back window, in days, that a trend query actually uses.
pub open spec fn effective_trend_days(days: i64) -> i64 {
    if days < 1 {
        DEFAULT_TREND_DAYS
    } else if days > MAX_TREND_DAYS {
        MAX_TREND_DAYS
    } else {
        days
    }
}

/// The days requested by an analytics query string: 30 when absent.
pub fn requested_trend_days(days: Option<i64>) -> (requested: i64)
    ensures
        requested == match days {
            Some(d) => d,
            None => DEFAULT_TREND_DAYS,
        },
{
    match days {
        Some(d) => d,
        None => DEFAULT_TREND_DAYS,
    }
}

/// Clamps a requested look-back window: values below one day fall back to
/// the 30-day default and values above 90 days are capped at 90.
pub fn normalize_trend_days(days: i64) -> (safe_days: i64)
    ensures
        safe_days == effective_trend_days(days),
{
    if days < 1 {
        DEFAULT_TREND_DAYS
    } else if days > MAX_TREND_DAYS {
        MAX_TREND_DAYS
    } else {
        days
    }
}

/// Every trend query covers between one and ninety days, a window already
/// in range is used as requested, and normalising twice changes nothing.
pub proof fn lemma_trend_days_are_bounded(days: i64)
    ensures
        1 <= effective_trend_days(days) <= MAX_TREND_DAYS,
        1 <= days <= MAX_TREND_DAYS ==> effective_trend_days(days) == days,
        effective_trend_days(effective_trend_days(days)) == effective_trend_days(days),
        days < 1 ==> effective_trend_days(days) == 30,
        days > 90 ==> effective_trend_days(days) == 90,
{
}

} // verus!
