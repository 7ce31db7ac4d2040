//! Calls that answer: a request sent, and its one answer waited for.
//!
//! Each look at the queues ends the wait on the answer, on the venue's refusal
//! of that request, on the session being over, or on the deadline, and says
//! which. "The venue said no" and "nothing came" are different facts, and only
//! one of them is worth retrying.
use vstd::prelude::*;
use crate::text::{decimal, digits, push_decimal, push_digits};
use crate::session::NOT_CONNECTED_CODE;

verus! {

/// What one look at the queues decides.
#[derive(Debug, PartialEq, Eq)]
pub enum WaitStep {
    /// The answer is there: take it.
    Take,
    /// The wait is over without an answer, and why.
    Fail(String),
    /// Nothing yet: look again after a pause.
    Pause,
}

/// The venue's refusal, in its own words, with its code.
pub open spec fn refused_message(code: int, message: Seq<char>) -> Seq<char> {
    message + " ("@ + decimal(code) + ")"@
}

/// A session that is over, with why.
pub open spec fn over_message(why: Seq<char>) -> Seq<char> {
    "the session is over: "@ + why + " ("@ + decimal(NOT_CONNECTED_CODE as int) + ")"@
}

/// A wait that ran out.
pub open spec fn timeout_message(secs: nat, what: Seq<char>) -> Seq<char> {
    "no answer within "@ + digits(secs) + "s to "@ + what
}

/// What one look decides: `Take` as 0, `Fail` as 1 with
/// its text, `Pause` as 2.
pub open spec fn spec_wait(
    answered: bool,
    refusal: Option<(i64, Seq<char>)>,
    session_over: Option<Seq<char>>,
    past_deadline: bool,
    timeout_secs: nat,
    what: Seq<char>,
) -> (int, Seq<char>) {
    if answered {
        (0, Seq::empty())
    } else if let Some((code, message)) = refusal {
        (1, refused_message(code as int, message))
    } else if let Some(why) = session_over {
        (1, over_message(why))
    } else if past_deadline {
        (1, timeout_message(timeout_secs, what))
    } else {
        (2, Seq::empty())
    }
}

/// A step as a pair of plain values.
pub open spec fn step_view(s: WaitStep) -> (int, Seq<char>) {
    match s {
        WaitStep::Take => (0, Seq::empty()),
        WaitStep::Fail(why) => (1, why@),
        WaitStep::Pause => (2, Seq::empty()),
    }
}

/// What one look at the queues decides, for a request waiting on `what`:
/// `answered` is whether its answer is there, `refusal` the venue's refusal of
/// it, `session_over` why the session ended where it has, and `past_deadline`
/// whether the `timeout_secs` wait has run out.
pub fn wait_step(
    answered: bool,
    refusal: Option<(i64, String)>,
    session_over: Option<String>,
    past_deadline: bool,
    timeout_secs: u64,
    what: &str,
) -> (r: WaitStep)
    ensures
        step_view(r) == spec_wait(
            answered,
            match refusal { Some((code, m)) => Some((code, m@)), None => None },
            match session_over { Some(why) => Some(why@), None => None },
            past_deadline,
            timeout_secs as nat,
            what@,
        ),
{
    if answered {
        return WaitStep::Take;
    }
    if let Some((code, message)) = refusal {
        let mut why = message;
        why.append(" (");
        push_decimal(&mut why, code);
        why.append(")");
        return WaitStep::Fail(why);
    }
    if let Some(reason) = session_over {
        let mut why = String::from_str("the session is over: ");
        why.append(reason.as_str());
        why.append(" (");
        push_decimal(&mut why, NOT_CONNECTED_CODE);
        why.append(")");
        return WaitStep::Fail(why);
    }
    if past_deadline {
        let mut why = String::from_str("no answer within ");
        push_digits(&mut why, timeout_secs);
        why.append("s to ");
        why.append(what);
        return WaitStep::Fail(why);
    }
    WaitStep::Pause
}

/// A wait never ends without saying why, and never ends on a look that has
/// nothing to say: it pauses only where there is no answer, no refusal, no
/// finished session and time left.
pub proof fn law_a_wait_pauses_only_with_nothing_to_say(
    answered: bool,
    refusal: Option<(i64, Seq<char>)>,
    session_over: Option<Seq<char>>,
    past_deadline: bool,
    timeout_secs: nat,
    what: Seq<char>,
)
    ensures
        spec_wait(answered, refusal, session_over, past_deadline, timeout_secs, what).0 == 2
            <==> (!answered && refusal is None && session_over is None && !past_deadline),
{
}

} // verus!
