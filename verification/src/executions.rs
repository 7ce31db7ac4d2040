//! What a request for the executions can be answered with.
//!
//! The executions answered are this session's, filtered by the fields of the
//! caller's filter; a window stated in days or dates cannot be applied, and is
//! refused rather than dropped.
use vstd::prelude::*;

verus! {

/// What the reference client leaves `lastNDays` at when nobody set it.
pub const UNSET_DAYS: i64 = 2147483647;

/// Whether a filter states a window this session cannot apply: a number of
/// days other than none (nought, or the reference client's unset number), or
/// any specific dates.
pub open spec fn states_a_window(last_n_days: i64, dates_stated: bool) -> bool {
    (last_n_days != 0 && last_n_days != UNSET_DAYS) || dates_stated
}

/// The refusal of a filter stating a window, where it states one.
pub fn window_refusal(last_n_days: i64, dates_stated: bool) -> (r: Option<String>)
    ensures
        states_a_window(last_n_days, dates_stated) ==> (r matches Some(why)
            && why@ == "req_executions: lastNDays and specificDates are not applied here; executions are this session's, filtered by the other fields"@),
        !states_a_window(last_n_days, dates_stated) ==> r is None,
{
    if (last_n_days != 0 && last_n_days != UNSET_DAYS) || dates_stated {
        Some(String::from_str("req_executions: lastNDays and specificDates are not applied here; executions are this session's, filtered by the other fields"))
    } else {
        None
    }
}

} // verus!
