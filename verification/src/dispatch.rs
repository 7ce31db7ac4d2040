//! What a dispatch pass hands a caller, where it decides something about it.
use vstd::prelude::*;
use crate::text::{digits, push_digits};

verus! {

/// The side an order trades on.
#[derive(Clone, Copy, Debug, PartialEq, Eq)]
pub enum Side {
    Buy,
    Sell,
    ShortSell,
}

/// The venue's word for the side of an execution: bought or sold. A short
/// sale is sold; the venue states no third word.
pub fn execution_side(side: &Side) -> (r: &'static str)
    ensures
        r@ == match side {
            Side::Buy => "BOT"@,
            Side::Sell | Side::ShortSell => "SLD"@,
        },
{
    match side {
        Side::Buy => "BOT",
        Side::Sell | Side::ShortSell => "SLD",
    }
}

/// The status an execution is reported with: the one the same report stated,
/// and only where it stated none, one derived from what is left to fill.
pub fn fill_status(reported: Option<&str>, remaining: i64) -> (r: String)
    ensures
        r@ == match reported {
            Some(status) => status@,
            None => if remaining == 0 { "Filled"@ } else { "Submitted"@ },
        },
{
    match reported {
        Some(status) => String::from_str(status),
        None => if remaining == 0 {
            String::from_str("Filled")
        } else {
            String::from_str("Submitted")
        },
    }
}

/// The client an execution is labelled with: the one the report stated, and
/// where it stated none, the client the order was placed under.
pub fn execution_client_id(stated: i64, placing_client: i32) -> (r: i64)
    ensures
        r == if stated != 0 { stated } else { placing_client as i64 },
{
    if stated != 0 { stated } else { placing_client as i64 }
}

/// The tick type the venue's model computation is stated under.
pub const MODEL_OPTION_COMPUTATION: i32 = 13;

/// The tick type a computation this client was asked for is stated under.
pub const ASKED_OPTION_COMPUTATION: i32 = 53;

/// The request that holds a subscription and every request following it, in
/// that order: everyone who asked for what one subscription carries.
pub fn holder_and_followers(holder: i64, followers: &Vec<i64>) -> (r: Vec<i64>)
    ensures
        r@ == seq![holder] + followers@,
{
    let mut r: Vec<i64> = Vec::new();
    r.push(holder);
    let mut i: usize = 0;
    while i < followers.len()
        invariant
            i <= followers.len(),
            r@ == seq![holder] + followers@.take(i as int),
        decreases followers.len() - i,
    {
        r.push(followers[i]);
        assert(followers@.take(i + 1) =~= followers@.take(i as int).push(followers@[i as int]));
        assert(r@ =~= seq![holder] + followers@.take(i + 1));
        i = i + 1;
    }
    assert(followers@.take(followers.len() as int) =~= followers@);
    r
}

/// Who an option computation is stated to, and under which tick type: a
/// computation this client solved answers the one request that asked for it,
/// under 53; the venue's model belongs to the contract and goes to every
/// request watching it, under 13.
pub fn computation_recipients(answers: Option<i64>, holder: i64, followers: &Vec<i64>) -> (r: (Vec<i64>, i32))
    ensures
        match answers {
            Some(asked) => r.0@ == seq![asked] && r.1 == ASKED_OPTION_COMPUTATION,
            None => r.0@ == seq![holder] + followers@ && r.1 == MODEL_OPTION_COMPUTATION,
        },
{
    match answers {
        Some(asked) => {
            let mut to: Vec<i64> = Vec::new();
            to.push(asked);
            assert(to@ =~= seq![asked]);
            (to, ASKED_OPTION_COMPUTATION)
        },
        None => (holder_and_followers(holder, followers), MODEL_OPTION_COMPUTATION),
    }
}

/// How a lost connection is announced.
pub fn connectivity_lost_text() -> (r: &'static str)
    ensures
        r@ == "Connectivity between client and server has been lost"@,
{
    "Connectivity between client and server has been lost"
}

/// How a restored connection is announced.
pub fn connectivity_restored_text() -> (r: &'static str)
    ensures
        r@ == "Connectivity between client and server has been restored - data maintained"@,
{
    "Connectivity between client and server has been restored - data maintained"
}

/// Said where historical ticks were left out for a moment that cannot be
/// read back.
pub open spec fn dropped_ticks(count: nat) -> Seq<char> {
    digits(count)
        + " historical tick(s) state a moment that cannot be read back, and are left out of this answer rather than dated to 1970"@
}

/// Said where historical ticks were left out; nothing where none was.
pub fn dropped_ticks_message(count: u64) -> (r: Option<String>)
    ensures
        count == 0 ==> r is None,
        count > 0 ==> (r matches Some(said) && said@ == dropped_ticks(count as nat)),
{
    if count == 0 {
        return None;
    }
    let mut why = String::new();
    push_digits(&mut why, count);
    why.append(" historical tick(s) state a moment that cannot be read back, and are left out of this answer rather than dated to 1970");
    assert(why@ =~= dropped_ticks(count as nat));
    Some(why)
}

/// The code a refusal stated by the venue in words is reported under.
pub const VENUE_REFUSAL_CODE: i64 = 321;

/// What a scan's answer is reported with on the error callback: a scan the
/// venue refused arrives in the shape of a completed one, carrying its reason,
/// and is reported against the requesting id under `VENUE_REFUSAL_CODE` in the
/// venue's own words rather than delivered as an empty result. `None` where
/// the answer carries no reason.
pub fn scan_refusal(req_id: i64, error_text: &str) -> (r: Option<(i64, i64, String)>)
    ensures
        error_text@.len() == 0 ==> r is None,
        error_text@.len() != 0 ==> (r matches Some((id, code, text))
            && id == req_id && code == VENUE_REFUSAL_CODE && text@ == error_text@),
{
    if error_text.unicode_len() == 0 {
        None
    } else {
        Some((req_id, VENUE_REFUSAL_CODE, String::from_str(error_text)))
    }
}

/// How a historical bar is delivered: `is_update` is whether the request's
/// initial answer has already completed, which makes every bar after it an
/// update to it. Answers whether the bar goes out as an update, and whether
/// this answer completes the initial one, so its end is announced now.
pub fn bar_delivery(is_update: bool, is_complete: bool) -> (r: (bool, bool))
    ensures
        r.0 == is_update,
        r.1 == (is_complete && !is_update),
{
    (is_update, is_complete && !is_update)
}

/// A book level goes out as a plain level where no market maker is named, and
/// as a level of the full book where one is.
pub fn depth_is_full_book(market_maker: &str) -> (r: bool)
    ensures
        r == (market_maker@.len() != 0),
{
    market_maker.unicode_len() != 0
}

} // verus!
