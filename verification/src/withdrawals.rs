//! What a withdrawal says about itself, and what a withdrawal of everything
//! tells the caller about what it did and did not reach.
use vstd::prelude::*;
use crate::text::{digits, push_digits};

verus! {

/// What a caller handed a withdrawal to state about itself, as read off it.
#[derive(Debug, PartialEq, Eq)]
pub enum WithdrawalNote {
    /// Nothing was handed.
    Nothing,
    /// A plain string, taken as the time on its own.
    Time(String),
    /// An object with the reference client's three fields, each as read:
    /// `None` where the field is absent, unset or cannot be read as text (or,
    /// for the indicator, as a number).
    Fields {
        manual_order_cancel_time: Option<String>,
        ext_operator: Option<String>,
        manual_order_indicator: Option<i32>,
    },
}

/// The number this protocol writes for an integer nobody set.
pub const UNSET_INTEGER: i32 = 2147483647;

/// Which of the three fields a withdrawal states, in the order they are
/// looked at, as the words the refusal names it by; `None` where it states
/// nothing.
pub open spec fn stated_field(note: WithdrawalNote) -> Option<Seq<char>> {
    match note {
        WithdrawalNote::Nothing => None,
        WithdrawalNote::Time(t) => if t@.len() != 0 { Some("a time"@) } else { None },
        WithdrawalNote::Fields { manual_order_cancel_time, ext_operator, manual_order_indicator } => {
            if manual_order_cancel_time matches Some(t) && t@.len() != 0 {
                Some("a time"@)
            } else if ext_operator matches Some(o) && o@.len() != 0 {
                Some("an operator"@)
            } else if manual_order_indicator matches Some(i) && i != UNSET_INTEGER {
                Some("who entered it"@)
            } else {
                None
            }
        },
    }
}

/// What is said when a withdrawal states a field this protocol cannot carry.
pub open spec fn withdrawal_carries(field: Seq<char>) -> Seq<char> {
    "a withdrawal states "@ + field
        + ", and this protocol carries no field for it: the cancel names five and none of them is that one, so the order would be withdrawn without it. Withdraw it without stating one, or state it where the order was placed."@
}

fn carries(field: &str) -> (r: String)
    ensures
        r@ == withdrawal_carries(field@),
{
    let mut r = String::from_str("a withdrawal states ");
    r.append(field);
    r.append(", and this protocol carries no field for it: the cancel names five and none of them is that one, so the order would be withdrawn without it. Withdraw it without stating one, or state it where the order was placed.");
    r
}

/// What a withdrawal states about itself that this wire cannot carry, said;
/// `None` where it states nothing. The withdrawal still goes either way.
pub fn withdrawal_states(note: &WithdrawalNote) -> (r: Option<String>)
    ensures
        match stated_field(*note) {
            Some(field) => r matches Some(said) && said@ == withdrawal_carries(field),
            None => r is None,
        },
{
    match note {
        WithdrawalNote::Nothing => None,
        WithdrawalNote::Time(t) => {
            if t.as_str().unicode_len() != 0 { Some(carries("a time")) } else { None }
        },
        WithdrawalNote::Fields { manual_order_cancel_time, ext_operator, manual_order_indicator } => {
            let time_stated = match manual_order_cancel_time {
                Some(t) => t.as_str().unicode_len() != 0,
                None => false,
            };
            if time_stated {
                return Some(carries("a time"));
            }
            let operator_stated = match ext_operator {
                Some(o) => o.as_str().unicode_len() != 0,
                None => false,
            };
            if operator_stated {
                return Some(carries("an operator"));
            }
            match manual_order_indicator {
                Some(i) if *i != UNSET_INTEGER => Some(carries("who entered it")),
                _ => None,
            }
        },
    }
}

/// How a withdrawal of everything ended, after one cancel per instrument.
#[derive(Debug, PartialEq, Eq)]
pub enum GlobalCancelOutcome {
    /// Every cancel went and every working order was covered.
    Covered,
    /// Some cancels did not reach the engine: raised to the caller.
    NotSent(String),
    /// Reported on the error callback: what was and was not covered.
    Partial(String),
}

/// Some cancels did not reach the engine.
pub open spec fn not_sent_message(count: nat, unsent: nat) -> Seq<char> {
    "a global cancel reached the engine for "@ + digits((count - unsent) as nat) + " of "@ + digits(count)
        + " instruments; the rest were not sent, so orders on them are still working"@
}

/// Working orders the venue named that hold no slot this client can cancel by.
pub open spec fn unheld_message(unheld: nat, count: nat) -> Seq<char> {
    digits(unheld)
        + " of this account's working orders have no slot in this client's instrument table, so no cancel was composed for them and they are still working; the "@
        + digits(count) + " that were sent cover the rest"@
}

/// The venue had not finished naming the working orders.
pub open spec fn unfinished_naming_message(count: nat) -> Seq<char> {
    "the venue had not finished naming this account's working orders within the wait: "@ + digits(count)
        + " cancels were sent for what had been named, and what had not been named is not covered and may still be working"@
}

/// How a withdrawal of everything ended.
pub open spec fn spec_global_cancel(count: nat, unsent: nat, unheld: nat, named: bool, naming_began: bool) -> (bool, int, Seq<char>) {
    if unsent > 0 {
        (true, 1, not_sent_message(count, unsent))
    } else if unheld > 0 {
        (true, 2, unheld_message(unheld, count))
    } else if !named && naming_began {
        (true, 2, unfinished_naming_message(count))
    } else {
        (false, 0, Seq::empty())
    }
}

/// The three parts of an outcome: whether anything is said, whether it is
/// raised (1) or reported (2), and what.
pub open spec fn outcome_view(o: GlobalCancelOutcome) -> (bool, int, Seq<char>) {
    match o {
        GlobalCancelOutcome::Covered => (false, 0, Seq::empty()),
        GlobalCancelOutcome::NotSent(s) => (true, 1, s@),
        GlobalCancelOutcome::Partial(s) => (true, 2, s@),
    }
}

/// How a withdrawal of everything ended: `count` cancels were composed, one per
/// instrument the engine holds an order on, and `unsent` of them did not reach
/// the engine; `unheld` working orders hold no slot to compose a cancel by;
/// `named` is whether the venue finished naming the working orders within the
/// wait and `naming_began` whether it had begun.
///
/// An omission that happened is said before one that may have: a send that
/// failed, then orders no cancel names, then a naming that did not finish.
pub fn global_cancel_outcome(count: u64, unsent: u64, unheld: u64, named: bool, naming_began: bool) -> (r: GlobalCancelOutcome)
    requires
        unsent <= count,
    ensures
        outcome_view(r) == spec_global_cancel(count as nat, unsent as nat, unheld as nat, named, naming_began),
{
    if unsent > 0 {
        let mut why = String::from_str("a global cancel reached the engine for ");
        push_digits(&mut why, count - unsent);
        why.append(" of ");
        push_digits(&mut why, count);
        why.append(" instruments; the rest were not sent, so orders on them are still working");
        return GlobalCancelOutcome::NotSent(why);
    }
    if unheld > 0 {
        let mut why = String::new();
        push_digits(&mut why, unheld);
        why.append(" of this account's working orders have no slot in this client's instrument table, so no cancel was composed for them and they are still working; the ");
        push_digits(&mut why, count);
        why.append(" that were sent cover the rest");
        assert(why@ =~= unheld_message(unheld as nat, count as nat));
        return GlobalCancelOutcome::Partial(why);
    }
    if !named && naming_began {
        let mut why = String::from_str("the venue had not finished naming this account's working orders within the wait: ");
        push_digits(&mut why, count);
        why.append(" cancels were sent for what had been named, and what had not been named is not covered and may still be working");
        return GlobalCancelOutcome::Partial(why);
    }
    GlobalCancelOutcome::Covered
}

/// The venue had not finished naming the working orders when they were read.
pub open spec fn unwhole_snapshot_message() -> Seq<char> {
    "the venue had not finished naming this account's working orders within the wait, so what follows is what had arrived rather than what is working"@
}

/// Orders listed that the engine's book does not hold.
pub open spec fn unbooked_message(unheld: nat) -> Seq<char> {
    digits(unheld)
        + " of the orders below have no slot in this client's instrument table and are absent from the engine's book: their fills are not booked, their status changes are not announced, and a withdrawal of every order does not reach them"@
}

/// What is said ahead of the open orders, in order: that the venue had not
/// finished naming them (where it began and did not finish), and that some of
/// them are absent from the engine's book (where any are).
pub fn open_orders_notes(named: bool, naming_began: bool, unheld: u64) -> (r: Vec<String>)
    ensures
        r@.map_values(|s: String| s@) == {
            let first = if !named && naming_began { seq![unwhole_snapshot_message()] } else { Seq::<Seq<char>>::empty() };
            if unheld > 0 { first.push(unbooked_message(unheld as nat)) } else { first }
        },
{
    let mut r: Vec<String> = Vec::new();
    if !named && naming_began {
        r.push(String::from_str("the venue had not finished naming this account's working orders within the wait, so what follows is what had arrived rather than what is working"));
    }
    let ghost first = r@.map_values(|s: String| s@);
    if unheld > 0 {
        let mut why = String::new();
        push_digits(&mut why, unheld);
        why.append(" of the orders below have no slot in this client's instrument table and are absent from the engine's book: their fills are not booked, their status changes are not announced, and a withdrawal of every order does not reach them");
        assert(why@ =~= unbooked_message(unheld as nat));
        r.push(why);
        assert(r@.map_values(|s: String| s@) =~= first.push(unbooked_message(unheld as nat)));
    }
    proof {
        if !named && naming_began {
            assert(first =~= seq![unwhole_snapshot_message()]);
        } else {
            assert(first =~= Seq::<Seq<char>>::empty());
        }
    }
    r
}

/// A withdrawal of everything says nothing only where every order was covered:
/// every cancel went, every working order had a slot, and the naming either
/// finished or never began.
pub proof fn law_a_silent_global_cancel_covered_everything(count: nat, unsent: nat, unheld: nat, named: bool, naming_began: bool)
    ensures
        !spec_global_cancel(count, unsent, unheld, named, naming_began).0
            <==> (unsent == 0 && unheld == 0 && (named || !naming_began)),
{
}

} // verus!
