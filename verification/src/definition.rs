//! A contract's definition as the venue stated it, in the words a caller
//! reads it by and places it again with.
use vstd::prelude::*;
use crate::text::{decimal, push_decimal};

verus! {

/// The right of an option.
#[derive(Clone, Copy, Debug, PartialEq, Eq)]
pub enum OptionRight {
    Call,
    Put,
}

/// A right under the letter the reference client states it by, which is what
/// goes back on the wire: `C` for a call, `P` for a put, nothing where the
/// contract is not an option. Left off, a call and a put on the same strike
/// are the same contract.
pub fn right_letter(right: Option<OptionRight>) -> (r: &'static str)
    ensures
        r@ == match right {
            Some(OptionRight::Call) => "C"@,
            Some(OptionRight::Put) => "P"@,
            None => Seq::<char>::empty(),
        },
{
    match right {
        Some(OptionRight::Call) => "C",
        Some(OptionRight::Put) => "P",
        None => {
            proof {
                reveal_strlit("");
            }
            ""
        },
    }
}

/// The market rule a definition names, as the two fields a caller reads it
/// by: the id as a number (`-1` where none is named) and as text (empty where
/// none is).
pub fn market_rule_fields(market_rule_id: Option<i64>) -> (r: (i64, String))
    ensures
        match market_rule_id {
            Some(id) => r.0 == id && r.1@ == decimal(id as int),
            None => r.0 == -1 && r.1@.len() == 0,
        },
{
    match market_rule_id {
        Some(id) => {
            let mut text = String::new();
            push_decimal(&mut text, id);
            assert(text@ =~= decimal(id as int));
            (id, text)
        },
        None => (-1, String::new()),
    }
}

} // verus!
