//! What an account request names and how long a position answer waits.
//!
//! One session holds one account here: a request naming none is taken on the
//! session's own. A position feed names a holding by id and leaves the rest to
//! the definition, which lands a moment later; the answer waits for it, but
//! only while something is still unnamed, and for at most two seconds.
use vstd::prelude::*;

verus! {

/// How long a position answer waits for the holdings it lists to be named,
/// in nanoseconds.
pub const NAMING_WAIT_NANOS: u128 = 2000000000;

/// The account a request is taken on: the one it names, or the session's own
/// where it names none.
pub fn account_named(given: &str, session_account: &str) -> (r: String)
    ensures
        given@.len() != 0 ==> r@ == given@,
        given@.len() == 0 ==> r@ == session_account@,
{
    if given.unicode_len() != 0 {
        String::from_str(given)
    } else {
        String::from_str(session_account)
    }
}

/// Whether a position answer waits longer for its holdings to be named:
/// something is still unnamed, and the wait has not run past its bound.
pub fn naming_wait_goes_on(unnamed: bool, waited_nanos: u128) -> (r: bool)
    ensures
        r == (unnamed && waited_nanos <= NAMING_WAIT_NANOS),
{
    unnamed && waited_nanos <= NAMING_WAIT_NANOS
}

} // verus!
