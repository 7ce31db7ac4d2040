//! The orders a session has seen the venue finish with, kept.
//!
//! The queue they arrive on empties as it is read and the venue does not send
//! them again, so they are kept here and every request for them is answered
//! from what is kept. What the venue takes back — a trade bust or correction
//! returns a finished order to a working quantity — is taken out before the
//! completions that arrived with it are added, so an order taken back and
//! finished again keeps its new record and loses the superseded one.
use vstd::prelude::*;

verus! {

/// The finished orders kept, each under its order id, in the order they
/// finished.
#[derive(Debug)]
pub struct CompletedArchive<T> {
    pub entries: Vec<(i64, T)>,
}

/// The entries with every one under `order_id` taken out, in order.
pub open spec fn taken_back<T>(entries: Seq<(i64, T)>, order_id: i64) -> Seq<(i64, T)>
    decreases entries.len(),
{
    if entries.len() == 0 {
        Seq::empty()
    } else {
        let rest = taken_back(entries.drop_last(), order_id);
        if entries.last().0 == order_id { rest } else { rest.push(entries.last()) }
    }
}

impl<T> CompletedArchive<T> {
    /// An archive with nothing in it, as a new session starts with.
    pub fn new() -> (r: Self)
        ensures
            r.entries@.len() == 0,
    {
        CompletedArchive { entries: Vec::new() }
    }

    /// Take out what the venue has taken back: every record kept under the
    /// order id.
    pub fn take_back(&mut self, order_id: i64)
        ensures
            final(self).entries@ == taken_back(old(self).entries@, order_id),
    {
        let mut kept: Vec<(i64, T)> = Vec::new();
        let mut rest: Vec<(i64, T)> = Vec::new();
        std::mem::swap(&mut rest, &mut self.entries);
        let ghost all = rest@;
        let n = rest.len();
        let mut i: usize = 0;
        assert(all.skip(0) =~= all);
        while rest.len() > 0
            invariant
                i + rest@.len() == all.len(),
                all.len() == n,
                rest@ == all.skip(i as int),
                kept@ == taken_back(all.take(i as int), order_id),
            decreases rest@.len(),
        {
            let entry = rest.remove(0);
            proof {
                assert(entry == all[i as int]);
                assert(all.take(i + 1).drop_last() =~= all.take(i as int));
                assert(all.take(i + 1).last() == entry);
                assert(rest@ =~= all.skip(i + 1));
            }
            if entry.0 != order_id {
                kept.push(entry);
            }
            i = i + 1;
        }
        proof {
            assert(all.take(i as int) =~= all);
        }
        self.entries = kept;
    }

    /// Keep an order the venue has finished with.
    pub fn record(&mut self, order_id: i64, finished: T)
        ensures
            final(self).entries@ == old(self).entries@.push((order_id, finished)),
    {
        self.entries.push((order_id, finished));
    }
}

/// An order taken back and then finished again is kept once, with the record
/// it finished with the second time.
pub proof fn law_a_refinished_order_keeps_its_new_record<T>(entries: Seq<(i64, T)>, order_id: i64, finished: T)
    ensures
        ({
            let after = taken_back(entries, order_id).push((order_id, finished));
            &&& after.last() == (order_id, finished)
            &&& forall|k: int| 0 <= k < after.len() - 1 ==> (#[trigger] after[k]).0 != order_id
        }),
{
    lemma_taken_back_clears(entries, order_id);
}

proof fn lemma_taken_back_clears<T>(entries: Seq<(i64, T)>, order_id: i64)
    ensures
        forall|k: int| 0 <= k < taken_back(entries, order_id).len() ==> (#[trigger] taken_back(entries, order_id)[k]).0 != order_id,
    decreases entries.len(),
{
    if entries.len() > 0 {
        lemma_taken_back_clears(entries.drop_last(), order_id);
        let rest = taken_back(entries.drop_last(), order_id);
        assert forall|k: int| 0 <= k < taken_back(entries, order_id).len()
            implies (#[trigger] taken_back(entries, order_id)[k]).0 != order_id by {
            if k < rest.len() {
                assert(taken_back(entries, order_id)[k] == rest[k]);
            }
        }
    }
}

} // verus!
