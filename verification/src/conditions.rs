//! What an order waits for before it works, as far as this layer decides it.
//!
//! A condition this client cannot carry as stated is refused rather than
//! changed: a trigger method outside the set the venue carries, cast, is a
//! different trigger, and a condition of a kind this client does not know,
//! dropped, makes the order go live at once.
use vstd::prelude::*;
use crate::text::{decimal, push_decimal};

verus! {

/// The refusal of a trigger method the venue does not carry on a condition.
pub open spec fn trigger_refusal(method: int) -> Seq<char> {
    "a price condition's trigger method "@ + decimal(method)
        + " is not one the venue carries on a condition: it is 0 to 4, and anything else would go out as a different trigger than the one stated"@
}

/// The trigger method a price condition carries: 0 the default, 1 last,
/// 2 bid/ask, 3 bid and 4 ask. Anything else is refused.
pub fn condition_trigger_method(trigger_method: i32) -> (r: Result<u8, String>)
    ensures
        0 <= trigger_method <= 4 ==> r == Ok::<u8, String>(trigger_method as u8),
        !(0 <= trigger_method <= 4) ==> (r matches Err(why) && why@ == trigger_refusal(trigger_method as int)),
{
    if 0 <= trigger_method && trigger_method <= 4 {
        Ok(trigger_method as u8)
    } else {
        let mut why = String::from_str("a price condition's trigger method ");
        push_decimal(&mut why, trigger_method as i64);
        why.append(" is not one the venue carries on a condition: it is 0 to 4, and anything else would go out as a different trigger than the one stated");
        Err(why)
    }
}

/// The refusal of a condition of a kind this client does not carry.
pub open spec fn unknown_kind_refusal(at: int) -> Seq<char> {
    "condition "@ + decimal(at)
        + " is of a kind this client does not carry. It is one of PriceCondition, TimeCondition, MarginCondition, ExecutionCondition, VolumeCondition or PercentChangeCondition \u{2014} dropped, the order would go live at once with nothing said"@
}

/// The refusal of the condition at `at` in an order's list, which is of a
/// kind this client does not carry.
pub fn unknown_condition_refusal(at: usize) -> (r: String)
    requires
        at <= i64::MAX,
    ensures
        r@ == unknown_kind_refusal(at as int),
{
    let mut why = String::from_str("condition ");
    push_decimal(&mut why, at as i64);
    why.append(" is of a kind this client does not carry. It is one of PriceCondition, TimeCondition, MarginCondition, ExecutionCondition, VolumeCondition or PercentChangeCondition \u{2014} dropped, the order would go live at once with nothing said");
    why
}

} // verus!
