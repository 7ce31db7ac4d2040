//! A request for calendar events, composed from what the caller's object
//! states: a contract id or a limit that names nothing is left unstated rather
//! than sent.
use vstd::prelude::*;

verus! {

/// What a calendar-event request asks the venue for.
#[derive(Debug, PartialEq, Eq)]
pub struct CalendarAsk {
    pub con_id: Option<i64>,
    pub filter: String,
    pub start_date: String,
    pub end_date: String,
    pub fill_watchlist: bool,
    pub fill_portfolio: bool,
    pub fill_competitors: bool,
    pub total_limit: Option<i64>,
}

/// A contract id names a contract only where it is positive.
pub open spec fn stated_con_id(con_id: Option<i64>) -> Option<i64> {
    match con_id {
        Some(id) => if id > 0 { Some(id) } else { None },
        None => None,
    }
}

/// A limit is stated only where it is positive and not the largest number,
/// which is how a caller leaves it unset.
pub open spec fn stated_limit(limit: Option<i64>) -> Option<i64> {
    match limit {
        Some(n) => if 0 < n < i64::MAX { Some(n) } else { None },
        None => None,
    }
}

/// The request for calendar events an object states. `con_id` and
/// `total_limit` are the numbers read off it where they could be read; the
/// texts and flags are as read, empty and false where they could not be.
pub fn calendar_ask(
    con_id: Option<i64>,
    filter: String,
    start_date: String,
    end_date: String,
    fill_watchlist: bool,
    fill_portfolio: bool,
    fill_competitors: bool,
    total_limit: Option<i64>,
) -> (r: CalendarAsk)
    ensures
        r.con_id == stated_con_id(con_id),
        r.total_limit == stated_limit(total_limit),
        r.filter@ == filter@,
        r.start_date@ == start_date@,
        r.end_date@ == end_date@,
        r.fill_watchlist == fill_watchlist,
        r.fill_portfolio == fill_portfolio,
        r.fill_competitors == fill_competitors,
{
    let con_id = match con_id {
        Some(id) => if id > 0 { Some(id) } else { None },
        None => None,
    };
    let total_limit = match total_limit {
        Some(n) => if 0 < n && n < i64::MAX { Some(n) } else { None },
        None => None,
    };
    CalendarAsk {
        con_id,
        filter,
        start_date,
        end_date,
        fill_watchlist,
        fill_portfolio,
        fill_competitors,
        total_limit,
    }
}

} // verus!
