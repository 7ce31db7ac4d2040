//! Where a placement goes once the order itself is valid.
//!
//! A placement under a number the venue is working is a replace, and a replace
//! names the order rather than the contract: it stays on the instrument it was
//! placed on, and one naming another instrument is refused rather than
//! recorded. A number the venue has already worked and finished names nothing
//! now, and is refused rather than taken as a second order. An order that does
//! not transmit is kept, and one that does sends what of its family was kept
//! before sending itself.
use vstd::prelude::*;
use crate::text::{digits, push_digits};

verus! {

/// Whether a contract is resolved from its description before the order goes:
/// it carries no contract id and does state a symbol.
pub fn resolves_by_description(con_id: i64, symbol: &str) -> (r: bool)
    ensures
        r == (con_id == 0 && symbol@.len() != 0),
{
    con_id == 0 && symbol.unicode_len() != 0
}

/// The refusal of a number the venue has worked and finished.
pub open spec fn spent_message(oid: nat) -> Seq<char> {
    "order "@ + digits(oid) + " has already been worked and finished: place a new order under a number of its own"@
}

/// The refusal of a replace naming another contract than the order is on.
pub open spec fn wrong_contract_message(oid: nat, symbol: Seq<char>) -> Seq<char> {
    "order "@ + digits(oid)
        + " is working on another contract, and a replace names the order rather than the contract: withdraw it and place a new order to trade "@
        + symbol
}

/// What a placement does about its instrument.
#[derive(Debug, PartialEq, Eq)]
pub enum PlacementStep {
    /// Refused: the number was worked and finished, and names nothing now.
    Spent(String),
    /// Refused: the order is working on another contract.
    WrongContract(String),
    /// The order goes on the instrument it was placed on.
    On(u32),
    /// The contract's instrument is found or registered.
    Register,
}

/// The step as plain values: 0 spent, 1 wrong contract, 2 on an instrument,
/// 3 register; with the refusal's text or the instrument.
pub open spec fn step_view(s: PlacementStep) -> (int, Seq<char>, u32) {
    match s {
        PlacementStep::Spent(why) => (0, why@, 0),
        PlacementStep::WrongContract(why) => (1, why@, 0),
        PlacementStep::On(at) => (2, Seq::empty(), at),
        PlacementStep::Register => (3, Seq::empty(), 0),
    }
}

/// What a placement does about its instrument.
///
/// `replacing` is whether the venue is working an order under `oid`; `spent`
/// whether it has worked and finished one; `placed_on` the instrument this
/// client recorded the working order on; `cached` what this client holds the
/// contract's id under (`None` with no session, `Some(None)` where it holds
/// nothing); `known_same_contract` whether the venue's own record of the
/// working order names the same contract (`None` where it holds no record).
pub open spec fn spec_step(
    oid: nat,
    symbol: Seq<char>,
    replacing: bool,
    spent: bool,
    placed_on: Option<u32>,
    con_id: i64,
    cached: Option<Option<u32>>,
    known_same_contract: Option<bool>,
) -> (int, Seq<char>, u32) {
    if !replacing && spent {
        (0, spent_message(oid), 0)
    } else if replacing && placed_on is Some && con_id != 0 && cached is Some {
        if cached.unwrap() != Some(placed_on.unwrap()) {
            (1, wrong_contract_message(oid, symbol), 0)
        } else {
            (2, Seq::empty(), placed_on.unwrap())
        }
    } else if replacing && known_same_contract == Some(false) {
        (1, wrong_contract_message(oid, symbol), 0)
    } else {
        (3, Seq::empty(), 0)
    }
}

fn wrong_contract(oid: u64, symbol: &str) -> (r: String)
    ensures
        r@ == wrong_contract_message(oid as nat, symbol@),
{
    let mut why = String::from_str("order ");
    push_digits(&mut why, oid);
    why.append(" is working on another contract, and a replace names the order rather than the contract: withdraw it and place a new order to trade ");
    why.append(symbol);
    why
}

/// What a placement under `oid` does about its instrument.
pub fn placement_step(
    oid: u64,
    symbol: &str,
    replacing: bool,
    spent: bool,
    placed_on: Option<u32>,
    con_id: i64,
    cached: Option<Option<u32>>,
    known_same_contract: Option<bool>,
) -> (r: PlacementStep)
    ensures
        step_view(r) == spec_step(oid as nat, symbol@, replacing, spent, placed_on, con_id, cached, known_same_contract),
{
    if !replacing && spent {
        let mut why = String::from_str("order ");
        push_digits(&mut why, oid);
        why.append(" has already been worked and finished: place a new order under a number of its own");
        return PlacementStep::Spent(why);
    }
    if replacing {
        match (placed_on, cached) {
            (Some(at), Some(held)) if con_id != 0 => {
                let same = match held {
                    Some(h) => h == at,
                    None => false,
                };
                if !same {
                    return PlacementStep::WrongContract(wrong_contract(oid, symbol));
                }
                return PlacementStep::On(at);
            },
            _ => {},
        }
        match known_same_contract {
            Some(false) => {
                return PlacementStep::WrongContract(wrong_contract(oid, symbol));
            },
            _ => {},
        }
    }
    PlacementStep::Register
}

/// Whether a replace lands on the instrument its order was placed on, once
/// the instrument is known; anything that is not a replace lands anywhere.
pub fn lands_where_placed(replacing: bool, placed_on: Option<u32>, instrument: u32) -> (r: bool)
    ensures
        r == !(replacing && placed_on is Some && placed_on.unwrap() != instrument),
{
    match placed_on {
        Some(at) => !replacing || at == instrument,
        None => true,
    }
}

/// What is done with a placement that validated and has its instrument.
#[derive(Clone, Copy, Debug, PartialEq, Eq)]
pub enum PlacementAction {
    /// Sent now, with what of its family was kept; `track` is whether a new
    /// record is written for it first (a replace restates the one it has).
    Transmit { track: bool },
    /// A replace that does not transmit: kept until something does.
    HoldReplace,
    /// A new order that does not transmit: kept, with its record, until
    /// something does.
    HoldAndTrack,
}

/// What is done with a validated placement: whether it restates the record of
/// the order it replaces first, and what then.
pub fn placement_action(transmit: bool, replacing: bool) -> (r: (bool, PlacementAction))
    ensures
        r.0 == replacing,
        transmit ==> r.1 == (PlacementAction::Transmit { track: !replacing }),
        !transmit && replacing ==> r.1 == PlacementAction::HoldReplace,
        !transmit && !replacing ==> r.1 == PlacementAction::HoldAndTrack,
{
    let action = if transmit {
        PlacementAction::Transmit { track: !replacing }
    } else if replacing {
        PlacementAction::HoldReplace
    } else {
        PlacementAction::HoldAndTrack
    };
    (replacing, action)
}

/// A number the venue worked and finished is never taken as a new order, and a
/// replace is never recorded on an instrument other than the one its order was
/// placed on.
pub proof fn law_a_placement_never_lands_on_a_spent_number_or_another_instrument(
    oid: nat,
    symbol: Seq<char>,
    replacing: bool,
    spent: bool,
    placed_on: Option<u32>,
    con_id: i64,
    cached: Option<Option<u32>>,
    known_same_contract: Option<bool>,
)
    ensures
        ({
            let s = spec_step(oid, symbol, replacing, spent, placed_on, con_id, cached, known_same_contract);
            &&& (!replacing && spent) ==> s.0 == 0
            &&& s.0 == 2 ==> replacing && placed_on == Some(s.2) && cached == Some(Some(s.2))
        }),
{
}

} // verus!
