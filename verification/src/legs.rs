//! The legs of a combination, read out of what the caller described them with.
//!
//! Each leg is described attribute by attribute under the reference client's
//! names. An absent attribute takes the reference client's default; one that
//! is present and cannot be read is a value the caller stated and this cannot
//! carry, and refuses the whole list; and a leg that names no contract refuses
//! it too.
use vstd::prelude::*;
use crate::text::{decimal, push_decimal};

verus! {

/// What reading one attribute of a described leg gave.
#[derive(Debug, PartialEq, Eq)]
pub enum Read<T> {
    /// The attribute is not there.
    Absent,
    /// The attribute is there and could not be read; why, in the reader's words.
    Unreadable(String),
    /// The attribute's value.
    Value(T),
}

/// A leg as it was described: each attribute as read.
#[derive(Debug, PartialEq, Eq)]
pub struct LegReading {
    pub con_id: Read<i64>,
    pub ratio: Read<i32>,
    pub action: Read<String>,
    pub exchange: Read<String>,
    pub open_close: Read<i32>,
    pub shorting_policy: Read<i32>,
    pub designated_location: Read<String>,
    pub exempt_code: Read<i32>,
}

/// One leg of a combination, as the order carries it.
#[derive(Debug, PartialEq, Eq)]
pub struct ComboLeg {
    pub con_id: i64,
    pub ratio: i32,
    pub action: String,
    pub exchange: String,
    pub open_close: i32,
    pub shorting_policy: i32,
    pub designated_location: String,
    pub exempt_code: i32,
}

/// Why an attribute cannot be carried, where it cannot.
pub open spec fn unreadable<T>(r: Read<T>) -> Option<Seq<char>> {
    match r {
        Read::Unreadable(why) => Some(why@),
        _ => None,
    }
}

/// The refusal of an attribute stated and unreadable.
pub open spec fn unreadable_message(at: int, name: Seq<char>, why: Seq<char>) -> Seq<char> {
    "combo leg "@ + decimal(at) + " states a "@ + name + " that cannot be read: "@ + why
}

/// The refusal of a leg that names no contract.
pub open spec fn no_con_id_message(at: int) -> Seq<char> {
    "combo leg "@ + decimal(at) + " has no conId, so it names no contract"@
}

/// The number an integer attribute states, or the default.
pub open spec fn number_or<T>(r: Read<T>, default: T) -> T {
    match r {
        Read::Value(v) => v,
        _ => default,
    }
}

/// The text an attribute states, or nothing.
pub open spec fn text_or(r: Read<String>) -> Seq<char> {
    match r {
        Read::Value(s) => s@,
        _ => Seq::empty(),
    }
}

/// The first attribute of leg `at` that refuses the list, in the order they
/// are read, said; `None` where the leg can be carried.
pub open spec fn leg_refusal(at: int, leg: LegReading) -> Option<Seq<char>> {
    if let Some(why) = unreadable(leg.con_id) {
        Some(unreadable_message(at, "conId"@, why))
    } else if number_or(leg.con_id, 0i64) == 0 {
        Some(no_con_id_message(at))
    } else if let Some(why) = unreadable(leg.ratio) {
        Some(unreadable_message(at, "ratio"@, why))
    } else if let Some(why) = unreadable(leg.action) {
        Some(unreadable_message(at, "action"@, why))
    } else if let Some(why) = unreadable(leg.exchange) {
        Some(unreadable_message(at, "exchange"@, why))
    } else if let Some(why) = unreadable(leg.open_close) {
        Some(unreadable_message(at, "openClose"@, why))
    } else if let Some(why) = unreadable(leg.shorting_policy) {
        Some(unreadable_message(at, "shortSaleSlot"@, why))
    } else if let Some(why) = unreadable(leg.designated_location) {
        Some(unreadable_message(at, "designatedLocation"@, why))
    } else if let Some(why) = unreadable(leg.exempt_code) {
        Some(unreadable_message(at, "exemptCode"@, why))
    } else {
        None
    }
}

/// The first refusal among the legs from `from` on.
pub open spec fn first_refusal(legs: Seq<LegReading>, from: int) -> Option<Seq<char>>
    decreases legs.len() - from,
{
    if from < 0 || from >= legs.len() {
        None
    } else if let Some(why) = leg_refusal(from, legs[from]) {
        Some(why)
    } else {
        first_refusal(legs, from + 1)
    }
}

/// Whether a carried leg states what its description did, with the reference
/// client's defaults for what it left out: no ratio (nought), no action,
/// exchange or location, open/close and short-sale slot nought, and an exempt
/// code of minus one.
pub open spec fn carries(out: ComboLeg, leg: LegReading) -> bool {
    &&& out.con_id == number_or(leg.con_id, 0i64)
    &&& out.ratio == number_or(leg.ratio, 0i32)
    &&& out.action@ == text_or(leg.action)
    &&& out.exchange@ == text_or(leg.exchange)
    &&& out.open_close == number_or(leg.open_close, 0i32)
    &&& out.shorting_policy == number_or(leg.shorting_policy, 0i32)
    &&& out.designated_location@ == text_or(leg.designated_location)
    &&& out.exempt_code == number_or(leg.exempt_code, -1i32)
}

fn refuse_unreadable(at: usize, name: &str, why: &String) -> (r: String)
    requires
        at <= i64::MAX,
    ensures
        r@ == unreadable_message(at as int, name@, why@),
{
    let mut r = String::from_str("combo leg ");
    push_decimal(&mut r, at as i64);
    r.append(" states a ");
    r.append(name);
    r.append(" that cannot be read: ");
    r.append(why.as_str());
    r
}

fn number_of(r: &Read<i32>, default: i32) -> (v: i32)
    ensures
        v == number_or(*r, default),
{
    match r {
        Read::Value(v) => *v,
        _ => default,
    }
}

fn text_of(r: &Read<String>) -> (v: String)
    ensures
        v@ == text_or(*r),
{
    match r {
        Read::Value(s) => s.clone(),
        _ => String::new(),
    }
}

/// One leg, carried, or the refusal of the list on its account.
pub fn read_leg(at: usize, leg: &LegReading) -> (r: Result<ComboLeg, String>)
    requires
        at <= i64::MAX,
    ensures
        match leg_refusal(at as int, *leg) {
            Some(why) => r matches Err(e) && e@ == why,
            None => r matches Ok(out) && carries(out, *leg),
        },
{
    if let Read::Unreadable(why) = &leg.con_id {
        return Err(refuse_unreadable(at, "conId", why));
    }
    let con_id: i64 = match &leg.con_id {
        Read::Value(v) => *v,
        _ => 0,
    };
    if con_id == 0 {
        let mut r = String::from_str("combo leg ");
        push_decimal(&mut r, at as i64);
        r.append(" has no conId, so it names no contract");
        return Err(r);
    }
    if let Read::Unreadable(why) = &leg.ratio {
        return Err(refuse_unreadable(at, "ratio", why));
    }
    if let Read::Unreadable(why) = &leg.action {
        return Err(refuse_unreadable(at, "action", why));
    }
    if let Read::Unreadable(why) = &leg.exchange {
        return Err(refuse_unreadable(at, "exchange", why));
    }
    if let Read::Unreadable(why) = &leg.open_close {
        return Err(refuse_unreadable(at, "openClose", why));
    }
    if let Read::Unreadable(why) = &leg.shorting_policy {
        return Err(refuse_unreadable(at, "shortSaleSlot", why));
    }
    if let Read::Unreadable(why) = &leg.designated_location {
        return Err(refuse_unreadable(at, "designatedLocation", why));
    }
    if let Read::Unreadable(why) = &leg.exempt_code {
        return Err(refuse_unreadable(at, "exemptCode", why));
    }
    Ok(ComboLeg {
        con_id,
        ratio: number_of(&leg.ratio, 0),
        action: text_of(&leg.action),
        exchange: text_of(&leg.exchange),
        open_close: number_of(&leg.open_close, 0),
        shorting_policy: number_of(&leg.shorting_policy, 0),
        designated_location: text_of(&leg.designated_location),
        exempt_code: number_of(&leg.exempt_code, -1),
    })
}

/// The legs of a combination, carried in the order described, or the refusal
/// of the first attribute, in leg order, that cannot be carried.
pub fn combo_legs(legs: &Vec<LegReading>) -> (r: Result<Vec<ComboLeg>, String>)
    requires
        legs.len() <= i64::MAX,
    ensures
        match first_refusal(legs@, 0) {
            Some(why) => r matches Err(e) && e@ == why,
            None => r matches Ok(out) && out.len() == legs.len()
                && forall|k: int| 0 <= k < legs.len() ==> carries(#[trigger] out@[k], legs@[k]),
        },
{
    let mut out: Vec<ComboLeg> = Vec::new();
    let mut i: usize = 0;
    while i < legs.len()
        invariant
            i <= legs.len(),
            legs.len() <= i64::MAX,
            out.len() == i,
            first_refusal(legs@, 0) == first_refusal(legs@, i as int),
            forall|k: int| 0 <= k < i ==> carries(#[trigger] out@[k], legs@[k]),
        decreases legs.len() - i,
    {
        match read_leg(i, &legs[i]) {
            Ok(leg) => {
                out.push(leg);
            },
            Err(why) => {
                return Err(why);
            },
        }
        i = i + 1;
    }
    Ok(out)
}

/// A leg carries every attribute it states, as stated, and the reference
/// client's default only where the attribute is absent: no ratio, open/close
/// or short-sale slot is nought, no text is empty, and no exempt code is
/// minus one.
pub proof fn law_a_leg_carries_what_it_states(out: ComboLeg, leg: LegReading)
    requires
        carries(out, leg),
    ensures
        leg.con_id is Value ==> out.con_id == leg.con_id->Value_0,
        leg.ratio is Value ==> out.ratio == leg.ratio->Value_0,
        leg.ratio is Absent ==> out.ratio == 0,
        leg.action is Value ==> out.action@ == leg.action->Value_0@,
        leg.action is Absent ==> out.action@.len() == 0,
        leg.exchange is Value ==> out.exchange@ == leg.exchange->Value_0@,
        leg.exchange is Absent ==> out.exchange@.len() == 0,
        leg.open_close is Value ==> out.open_close == leg.open_close->Value_0,
        leg.open_close is Absent ==> out.open_close == 0,
        leg.shorting_policy is Value ==> out.shorting_policy == leg.shorting_policy->Value_0,
        leg.shorting_policy is Absent ==> out.shorting_policy == 0,
        leg.designated_location is Value ==> out.designated_location@ == leg.designated_location->Value_0@,
        leg.designated_location is Absent ==> out.designated_location@.len() == 0,
        leg.exempt_code is Value ==> out.exempt_code == leg.exempt_code->Value_0,
        leg.exempt_code is Absent ==> out.exempt_code == -1,
{
}

/// A list of legs that is carried carries each leg's stated attributes in
/// the order described: the ratio of leg `k` is the one leg `k` states.
pub proof fn law_the_legs_carried_are_the_legs_described(out: Seq<ComboLeg>, legs: Seq<LegReading>, k: int)
    requires
        out.len() == legs.len(),
        forall|i: int| 0 <= i < legs.len() ==> carries(#[trigger] out[i], legs[i]),
        0 <= k < legs.len(),
        legs[k].ratio is Value,
    ensures
        out[k].ratio == legs[k].ratio->Value_0,
{
    law_a_leg_carries_what_it_states(out[k], legs[k]);
}

} // verus!
