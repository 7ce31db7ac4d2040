//! Numbers a caller states, narrowed to what a request carries.
//!
//! A value that does not fit is refused rather than truncated or wrapped: a
//! truncated request id answers under a number the caller never used, and a
//! negative contract id or count read as unsigned asks about the wrong contract
//! or for every row the venue holds.
use vstd::prelude::*;
use crate::text::{decimal, push_decimal};

verus! {

/// The refusal of a value a request cannot carry.
pub open spec fn out_of_range_message(what: Seq<char>, value: int) -> Seq<char> {
    what + " "@ + decimal(value) + " is outside the range this request can carry (0..=4294967295)"@
}

/// Narrow a signed value the caller stated to the width its request carries,
/// refusing rather than wrapping.
pub fn wire_u32(what: &str, value: i64) -> (r: Result<u32, String>)
    ensures
        0 <= value <= u32::MAX ==> r == Ok::<u32, String>(value as u32),
        !(0 <= value <= u32::MAX) ==> (r matches Err(why) && why@ == out_of_range_message(what@, value as int)),
{
    if 0 <= value && value <= 4294967295i64 {
        Ok(value as u32)
    } else {
        let mut why = String::from_str(what);
        why.append(" ");
        push_decimal(&mut why, value);
        why.append(" is outside the range this request can carry (0..=4294967295)");
        Err(why)
    }
}

/// Narrow a request id the caller numbered to the width the request carries,
/// refusing rather than truncating.
pub fn wire_req_id(req_id: i64) -> (r: Result<u32, String>)
    ensures
        0 <= req_id <= u32::MAX ==> r == Ok::<u32, String>(req_id as u32),
        !(0 <= req_id <= u32::MAX) ==> (r matches Err(why) && why@ == out_of_range_message("req_id"@, req_id as int)),
{
    wire_u32("req_id", req_id)
}

/// The order number an id names: a positive one, read as unsigned. An id at or
/// below zero names no order the venue will hold.
pub fn order_number(order_id: i64) -> (r: Option<u64>)
    ensures
        order_id > 0 ==> r == Some(order_id as u64),
        order_id <= 0 ==> r is None,
{
    if order_id > 0 { Some(order_id as u64) } else { None }
}

/// The refusal of a placement under an id that names no order.
pub open spec fn not_an_order_to_place(order_id: int) -> Seq<char> {
    "place_order: order_id "@ + decimal(order_id)
        + " is not an order number;                  ask for one with next_order_id() or reqIds()"@
}

/// The refusal of a placement under an id that names no order.
pub fn placement_refusal(order_id: i64) -> (r: String)
    ensures
        r@ == not_an_order_to_place(order_id as int),
{
    let mut why = String::from_str("place_order: order_id ");
    push_decimal(&mut why, order_id);
    why.append(" is not an order number;                  ask for one with next_order_id() or reqIds()");
    why
}

/// The refusal of a withdrawal under an id that names no order.
pub open spec fn not_an_order_to_cancel(order_id: int) -> Seq<char> {
    "cancel_order: order_id "@ + decimal(order_id) + " is not an order number"@
}

/// The refusal of a withdrawal under an id that names no order.
pub fn cancel_refusal(order_id: i64) -> (r: String)
    ensures
        r@ == not_an_order_to_cancel(order_id as int),
{
    let mut why = String::from_str("cancel_order: order_id ");
    push_decimal(&mut why, order_id);
    why.append(" is not an order number");
    why
}

/// How many rows a scan asks for: the venue's own fifty where the caller
/// stated a negative number, which is the reference client's "none stated",
/// and otherwise the number stated, held to what the request carries.
pub fn scan_row_limit(rows: i64) -> (r: u32)
    ensures
        rows < 0 ==> r == 50,
        0 <= rows <= u32::MAX ==> r == rows,
        rows > u32::MAX ==> r == u32::MAX,
{
    if rows < 0 {
        50
    } else if rows > 4294967295i64 {
        4294967295u32
    } else {
        rows as u32
    }
}

/// How many past ticks a stream asks for: none for a negative number.
pub fn tick_count(number_of_ticks: i32) -> (r: u32)
    ensures
        number_of_ticks < 0 ==> r == 0,
        number_of_ticks >= 0 ==> r == number_of_ticks,
{
    if number_of_ticks < 0 { 0 } else { number_of_ticks as u32 }
}

/// The refusal of a withdrawal of everything by permanent id zero.
pub fn perm_id_refusal() -> (r: String)
    ensures
        r@ == "cancel_order_by_perm_id: perm_id must be non-zero"@,
{
    String::from_str("cancel_order_by_perm_id: perm_id must be non-zero")
}

} // verus!
