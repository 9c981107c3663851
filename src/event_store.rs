use vstd::prelude::*;

use crate::errors::BankAccountEventStoreError;
use crate::events::{BankAccountEvent, BankAccountId};

verus! {

/// The events of `log` that belong to account `id`, in log order.
pub open spec fn events_for(log: Seq<BankAccountEvent>, id: BankAccountId) -> Seq<BankAccountEvent> {
    log.filter(|e: BankAccountEvent| e.account_id() == id)
}

/// Partitions are isolated: every event read back for `id` belongs to `id`,
/// and appending events of other identities leaves the events of `id` as
/// they were.
pub proof fn lemma_partition_isolation(
    log: Seq<BankAccountEvent>,
    saved: Seq<BankAccountEvent>,
    id: BankAccountId,
)
    requires
        forall|i: int| 0 <= i < saved.len() ==> (#[trigger] saved[i]).account_id() != id,
    ensures
        forall|i: int|
            0 <= i < events_for(log, id).len() ==> (#[trigger] events_for(log, id)[i]).account_id()
                == id,
        events_for(log + saved, id) == events_for(log, id),
{
    let keep = |e: BankAccountEvent| e.account_id() == id;
    log.filter_lemma(keep);
    Seq::filter_distributes_over_add(log, saved, keep);
    lemma_filter_drops_all(saved, keep);
    assert(log.filter(keep) + saved.filter(keep) =~= log.filter(keep));
}

/// Filtering by a predicate that no element meets leaves nothing.
proof fn lemma_filter_drops_all(s: Seq<BankAccountEvent>, keep: spec_fn(BankAccountEvent) -> bool)
    requires
        forall|i: int| 0 <= i < s.len() ==> !keep(#[trigger] s[i]),
    ensures
        s.filter(keep) == Seq::<BankAccountEvent>::empty(),
    decreases s.len(),
{
    reveal(Seq::filter);
    if s.len() > 0 {
        lemma_filter_drops_all(s.drop_last(), keep);
    } else {
        assert(s.filter(keep) =~= Seq::<BankAccountEvent>::empty());
    }
}

/// Append-only persistence of events, partitioned by account identity.
pub trait BankAccountEventStore {
    /// Every event saved so far, in the order it was saved.
    spec fn log(&self) -> Seq<BankAccountEvent>;

    /// The store never reports a failure.
    spec fn infallible(&self) -> bool;

    /// The events saved for `id`, oldest first; empty for an unknown `id`.
    fn get_events(&self, id: BankAccountId) -> (r: Result<
        Vec<BankAccountEvent>,
        BankAccountEventStoreError,
    >)
        ensures
            r matches Ok(found) ==> found@ == events_for(self.log(), id),
            self.infallible() ==> r is Ok,
    ;

    /// Appends `events` in order, all or none.
    fn save_events(&mut self, events: Vec<BankAccountEvent>) -> (r: Result<
        (),
        BankAccountEventStoreError,
    >)
        ensures
            r is Ok ==> final(self).log() == old(self).log() + events@,
            r is Err ==> final(self).log() == old(self).log(),
            old(self).infallible() ==> r is Ok,
            final(self).infallible() == old(self).infallible(),
    ;
}

/// An event store that keeps its log in memory.
pub struct InMemoryBankAccountEventStore {
    events: Vec<BankAccountEvent>,
}

impl InMemoryBankAccountEventStore {
    pub fn new() -> (r: InMemoryBankAccountEventStore)
        ensures
            r.log() == Seq::<BankAccountEvent>::empty(),
            r.infallible(),
    {
        InMemoryBankAccountEventStore { events: Vec::new() }
    }
}

impl BankAccountEventStore for InMemoryBankAccountEventStore {
    closed spec fn log(&self) -> Seq<BankAccountEvent> {
        self.events@
    }

    open spec fn infallible(&self) -> bool {
        true
    }

    fn get_events(&self, id: BankAccountId) -> (r: Result<
        Vec<BankAccountEvent>,
        BankAccountEventStoreError,
    >)
        ensures
            r is Ok,
    {
        let mut values: Vec<BankAccountEvent> = Vec::new();
        let mut i: usize = 0;
        while i < self.events.len()
            invariant
                0 <= i <= self.events@.len(),
                values@ == events_for(self.events@.take(i as int), id),
            decreases self.events@.len() - i,
        {
            let event = self.events[i];
            proof {
                reveal(Seq::filter);
                assert(self.events@.take(i + 1).drop_last() =~= self.events@.take(i as int));
            }
            if event.get_aggregate_id() == id {
                values.push(event);
            }
            i = i + 1;
        }
        proof {
            assert(self.events@.take(self.events@.len() as int) =~= self.events@);
        }
        Ok(values)
    }

    fn save_events(&mut self, events: Vec<BankAccountEvent>) -> (r: Result<
        (),
        BankAccountEventStoreError,
    >)
        ensures
            r is Ok,
    {
        let mut added = events;
        self.events.append(&mut added);
        Ok(())
    }
}

} // verus!
