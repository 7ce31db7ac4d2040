//! The order ids a client hands out.
//!
//! An id is floored at one past the highest id the venue has named an order
//! under — a working order holds its id and a fill spends it — and counted on
//! from whatever this client has already handed out or seen placed. Nothing is
//! kept between sessions: the venue names what the account has used after each
//! connect.
use vstd::prelude::*;
use crate::wire::{wire_req_id, out_of_range_message};
use crate::text::{digits, push_digits};

verus! {

/// The highest id an order can carry and still be named back by the venue's
/// own reports, which state it signed: the end of the signed range.
pub const MAX_ORDER_ID: u64 = 9223372036854775807;

/// One past the highest id the venue has named an order under (held at the
/// top of the range), or one where there is no session to have named any.
pub open spec fn floor_of(watermark: Option<u64>) -> int {
    match watermark {
        Some(w) => if w < u64::MAX { w + 1 } else { u64::MAX as int },
        None => 1,
    }
}

/// The larger of two integers.
pub open spec fn max_int(a: int, b: int) -> int {
    if a >= b { a } else { b }
}

/// The id a caller may next place under.
pub open spec fn spec_stated(next: u64, watermark: Option<u64>) -> int {
    let wanted = max_int(next as int, floor_of(watermark));
    if wanted > MAX_ORDER_ID { MAX_ORDER_ID as int } else { wanted }
}

/// What is said when the ids in use reach past the end of the range.
pub open spec fn no_id_left_message(reached: int) -> Seq<char> {
    "this account has no order id left: the ids in use reach "@ + digits(reached as nat)
        + ", and an order above 9223372036854775807 cannot be named back by the venue's own reports"@
}

/// The counter of order ids: the next one this client would hand out.
#[derive(Clone, Copy, Debug, PartialEq, Eq)]
pub struct OrderIdCounter {
    pub next: u64,
}

impl OrderIdCounter {
    /// A counter for a new session: counted from what the venue names.
    pub fn new() -> (r: Self)
        ensures
            r.next == 0,
    {
        OrderIdCounter { next: 0 }
    }

    /// The id a caller may next place under, without taking it: the counter,
    /// floored at one past the highest id the venue has named (`watermark`,
    /// `None` with no session), and held under the end of the range the
    /// venue's reports can name back.
    pub fn stated_order_id(&self, watermark: Option<u64>) -> (r: u64)
        ensures
            r == spec_stated(self.next, watermark),
            r <= MAX_ORDER_ID,
            r >= self.next || r == MAX_ORDER_ID,
            watermark matches Some(w) ==> (r > w || r == MAX_ORDER_ID),
            r >= 1,
    {
        let floor: u64 = match watermark {
            Some(w) => if w < u64::MAX { w + 1 } else { u64::MAX },
            None => 1,
        };
        let wanted = if self.next >= floor { self.next } else { floor };
        if wanted > MAX_ORDER_ID { MAX_ORDER_ID } else { wanted }
    }

    /// Hand out the next order id, and count past it.
    ///
    /// Refused where the account has no id left that the venue's reports can
    /// name back, with what is said about it; every placement path refuses the
    /// zero a caller is handed then, and the counter is left as it was.
    pub fn take_order_id(&mut self, watermark: Option<u64>) -> (r: Result<u64, String>)
        ensures
            ({
                let wanted = max_int(old(self).next as int, spec_stated(old(self).next, watermark));
                &&& wanted > MAX_ORDER_ID ==> (r matches Err(why) && why@ == no_id_left_message(wanted)
                    && final(self).next == old(self).next)
                &&& wanted <= MAX_ORDER_ID ==> (r == Ok::<u64, String>(wanted as u64) && final(self).next == wanted + 1)
            }),
    {
        let floor = self.stated_order_id(watermark);
        let held = self.next;
        let id = if held >= floor { held } else { floor };
        if id > MAX_ORDER_ID {
            let mut why = String::from_str("this account has no order id left: the ids in use reach ");
            push_digits(&mut why, id);
            why.append(", and an order above 9223372036854775807 cannot be named back by the venue's own reports");
            return Err(why);
        }
        self.next = id + 1;
        Ok(id)
    }

    /// Count past an id a caller has just placed under, so it is not handed
    /// out again: the venue has not named it yet, so the floor does not.
    pub fn note_placed(&mut self, order_id: u64)
        requires
            order_id < u64::MAX,
        ensures
            final(self).next == max_int(old(self).next as int, order_id + 1),
    {
        if self.next < order_id + 1 {
            self.next = order_id + 1;
        }
    }
}

/// The first id past everything the account has used that a request can also
/// carry: one where there is no session, one past the
/// widest carryable id the account has used otherwise, and a refusal where
/// that is past what a request carries.
pub open spec fn spec_next_shared_id(narrow_watermark: Option<u32>) -> Result<int, Seq<char>> {
    match narrow_watermark {
        None => Ok(1),
        Some(w) => if w + 1 <= u32::MAX {
            Ok(w + 1)
        } else {
            Err("this account has no order id left that a request can also carry: "@
                + out_of_range_message("req_id"@, w + 1))
        },
    }
}

/// The first id past everything the account has used that a request can also
/// carry. `narrow_watermark` is the widest id the account has used that a
/// request can carry, and `None` with no session.
pub fn next_shared_id(narrow_watermark: Option<u32>) -> (r: Result<i64, String>)
    ensures
        match (r, spec_next_shared_id(narrow_watermark)) {
            (Ok(id), Ok(want)) => id == want,
            (Err(why), Err(want)) => why@ == want,
            _ => false,
        },
{
    match narrow_watermark {
        None => Ok(1),
        Some(w) => {
            let next: i64 = w as i64 + 1;
            match wire_req_id(next) {
                Ok(_) => Ok(next),
                Err(refusal) => {
                    let mut why = String::from_str("this account has no order id left that a request can also carry: ");
                    why.append(refusal.as_str());
                    Err(why)
                },
            }
        },
    }
}

/// The id stated next is never below the counter, nor at or below what the
/// venue has named, short of the end of the range: a caller numbering from the
/// announced id never reuses one this client handed out or the venue named.
pub proof fn law_the_stated_id_clears_the_counter(next: u64, watermark: Option<u64>)
    ensures
        spec_stated(next, watermark) >= next || spec_stated(next, watermark) == MAX_ORDER_ID,
        spec_stated(next, watermark) <= MAX_ORDER_ID,
        spec_stated(next, watermark) >= 1,
        watermark matches Some(w) ==> (spec_stated(next, watermark) > w || spec_stated(next, watermark) == MAX_ORDER_ID),
{
}

/// After an id is handed out, the id announced next is larger than it,
/// whatever the venue has named in between, short of the end of the range.
pub proof fn law_the_id_announced_after_a_take_is_past_it(next: u64, first: Option<u64>, second: Option<u64>)
    ensures
        ({
            let taken = max_int(next as int, spec_stated(next, first));
            taken < MAX_ORDER_ID ==> spec_stated((taken + 1) as u64, second) > taken
        }),
{
}

/// Ids are never handed out twice: a second take after one that handed out an
/// id hands out a larger one or none, whatever the venue named in between.
pub proof fn law_ids_increase(next: u64, first: Option<u64>, second: Option<u64>)
    ensures
        ({
            let wanted1 = max_int(next as int, spec_stated(next, first));
            wanted1 <= MAX_ORDER_ID ==> {
                let next1 = (wanted1 + 1) as u64;
                let wanted2 = max_int(next1 as int, spec_stated(next1, second));
                wanted2 <= MAX_ORDER_ID ==> wanted2 > wanted1
            }
        }),
{
}

/// An id handed out clears every id the venue has named, and goes no further
/// than it has to: it is the counter or the floor, whichever is larger.
pub proof fn law_ids_start_past_what_is_named_and_no_further(next: u64, watermark: u64)
    requires
        watermark < MAX_ORDER_ID,
    ensures
        ({
            let wanted = max_int(next as int, spec_stated(next, Some(watermark)));
            wanted <= MAX_ORDER_ID ==> {
                &&& wanted > watermark
                &&& wanted == max_int(next as int, floor_of(Some(watermark)))
            }
        }),
{
}

/// An id a caller placed under is not handed out again, though the venue has
/// not named it yet.
pub proof fn law_a_placed_id_is_not_handed_out_again(next: u64, placed: u64, watermark: Option<u64>)
    requires
        placed < u64::MAX,
    ensures
        ({
            let next1 = max_int(next as int, placed + 1) as u64;
            let wanted = max_int(next1 as int, spec_stated(next1, watermark));
            wanted <= MAX_ORDER_ID ==> wanted > placed
        }),
{
}

} // verus!
