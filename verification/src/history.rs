//! A bar series asked for and answered in parts, and what an adjusted series
//! asks about first.
//!
//! The venue may answer a bar request in parts. What each part carries is kept,
//! and the answer ends on the part that says it is the last rather than on the
//! first: a series cut at the first part is short and says nothing about it.
use vstd::prelude::*;
use crate::text::{upper, upper_char, decimal, push_decimal};
use crate::names::same_text;

verus! {

/// Whether a bar request asks for prices adjusted for corporate actions: its
/// `what_to_show` is `ADJUSTED_LAST`, read without regard to ASCII case.
pub fn wants_adjusted(what_to_show: &str) -> (r: bool)
    ensures
        r == (what_to_show@.map_values(|c: char| upper(c)) == "ADJUSTED_LAST"@),
{
    let n = what_to_show.unicode_len();
    let mut u = String::new();
    let mut i: usize = 0;
    while i < n
        invariant
            n == what_to_show@.len(),
            i <= n,
            u@ == what_to_show@.take(i as int).map_values(|c: char| upper(c)),
        decreases n - i,
    {
        let c = upper_char(what_to_show.get_char(i));
        crate::text::push_char(&mut u, c);
        assert(what_to_show@.take(i + 1).map_values(|c: char| upper(c))
            =~= what_to_show@.take(i as int).map_values(|c: char| upper(c)).push(c));
        i = i + 1;
    }
    assert(what_to_show@.take(n as int) =~= what_to_show@);
    same_text(u.as_str(), "ADJUSTED_LAST")
}

/// The date a bar's stamp opens with: its first eight characters, or the whole
/// stamp where it is shorter.
pub fn date_part(stamp: &str) -> (r: String)
    ensures
        r@ == stamp@.take(if stamp@.len() < 8 { stamp@.len() as int } else { 8 }),
{
    let n = stamp.unicode_len();
    let end: usize = if n < 8 { n } else { 8 };
    let mut r = String::new();
    let mut i: usize = 0;
    while i < end
        invariant
            n == stamp@.len(),
            end <= n,
            i <= end,
            r@ == stamp@.take(i as int),
        decreases end - i,
    {
        let c = stamp.get_char(i);
        crate::text::push_char(&mut r, c);
        assert(stamp@.take(i + 1) =~= stamp@.take(i as int).push(c));
        i = i + 1;
    }
    r
}

/// The refusal of corporate actions asked for under an id that is not the
/// venue's.
pub open spec fn actions_refusal_message(con_id: int) -> Seq<char> {
    "corporate actions are asked for by the venue's id for the contract, and "@ + decimal(con_id)
        + " is not one: qualify the contract first and pass what comes back"@
}

/// The refusal of corporate actions asked for under `con_id`, where it is not
/// the venue's id for a contract (at or below zero).
pub fn actions_refusal(con_id: i64) -> (r: Option<String>)
    ensures
        con_id > 0 ==> r is None,
        con_id <= 0 ==> (r matches Some(why) && why@ == actions_refusal_message(con_id as int)),
{
    if con_id > 0 {
        return None;
    }
    let mut why = String::from_str("corporate actions are asked for by the venue's id for the contract, and ");
    push_decimal(&mut why, con_id);
    why.append(" is not one: qualify the contract first and pass what comes back");
    Some(why)
}

/// What a bar request has been answered with so far.
pub struct BarParts<T> {
    /// The time zone the answer states its bars in: the first part's that
    /// states one.
    pub zone: String,
    /// Every bar of every part taken, in the order the parts came.
    pub bars: Vec<T>,
}

impl<T> BarParts<T> {
    /// Nothing answered yet.
    pub fn new() -> (r: Self)
        ensures
            r.zone@.len() == 0,
            r.bars@.len() == 0,
    {
        BarParts { zone: String::new(), bars: Vec::new() }
    }

    /// Take one part of the answer: its bars are kept after those already
    /// taken, its zone is the answer's where none was stated yet, and the
    /// answer is whole where the part says it is the last.
    pub fn take_part(&mut self, zone: String, bars: Vec<T>, is_complete: bool) -> (whole: bool)
        ensures
            final(self).bars@ == old(self).bars@ + bars@,
            final(self).zone@ == (if old(self).zone@.len() == 0 { zone@ } else { old(self).zone@ }),
            whole == is_complete,
    {
        let ghost stated = zone@;
        if self.zone.unicode_len() == 0 {
            self.zone = zone;
        }
        let mut rest = bars;
        let ghost all = rest@;
        let ghost before = self.bars@;
        let n = rest.len();
        let mut i: usize = 0;
        assert(all.skip(0) =~= all);
        while rest.len() > 0
            invariant
                i + rest@.len() == all.len(),
                all.len() == n,
                rest@ == all.skip(i as int),
                self.bars@ == before + all.take(i as int),
                self.zone@ == (if old(self).zone@.len() == 0 { stated } else { old(self).zone@ }),
            decreases rest@.len(),
        {
            let bar = rest.remove(0);
            proof {
                assert(bar == all[i as int]);
                assert(rest@ =~= all.skip(i + 1));
            }
            self.bars.push(bar);
            proof {
                assert(all.take(i + 1) =~= all.take(i as int).push(bar));
                assert(self.bars@ =~= before + all.take(i + 1));
            }
            i = i + 1;
        }
        assert(all.take(i as int) =~= all);
        is_complete
    }
}

} // verus!
