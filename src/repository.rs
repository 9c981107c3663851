use vstd::prelude::*;

use crate::aggregate::{
    lemma_replay_from_append, lemma_replay_from_errors, replay, replay_from, AccountView,
    BankAccountAggregate,
};
use crate::commands::{AggregateCommand, DepositMoney, OpenBankAccount, WithdrawMoney};
use crate::errors::BankAccountError;
use crate::event_store::{events_for, BankAccountEventStore, InMemoryBankAccountEventStore};
use crate::events::{BankAccountEvent, BankAccountId};

verus! {

/// What handling `command` against a store holding `log` comes to, when
/// the store itself does not fail: the events to append, or the error.
pub open spec fn command_outcome<C: AggregateCommand>(log: Seq<BankAccountEvent>, command: C) -> Result<
    Seq<BankAccountEvent>,
    BankAccountError,
> {
    match replay(events_for(log, command.target())) {
        Err(x) => Err(x),
        Ok(v) => match command.decide(v) {
            Err(x) => Err(BankAccountError::Command(x)),
            Ok(events) => match replay_from(v, events) {
                Ok(_) => Ok(events),
                Err(x) => Err(x),
            },
        },
    }
}

/// Loads aggregates by replaying their history and saves the events
/// recorded on them.
pub struct BankAccountRepository<S: BankAccountEventStore> {
    pub event_store: S,
}

impl<S: BankAccountEventStore> BankAccountRepository<S> {
    pub fn new(event_store: S) -> (r: BankAccountRepository<S>)
        ensures
            r.event_store == event_store,
    {
        BankAccountRepository { event_store }
    }

    /// Replays the history of account `id` into a fresh aggregate. Unless
    /// the store fails, the result is exactly what the replay gives.
    pub fn load(&self, id: BankAccountId) -> (r: Result<BankAccountAggregate, BankAccountError>)
        ensures
            self.event_store.infallible() ==> !(r matches Err(BankAccountError::Store(_))),
            !(r matches Err(BankAccountError::Store(_))) ==> match replay(
                events_for(self.event_store.log(), id),
            ) {
                Ok(v) => r matches Ok(a) && a@ == v && a.pending() == Seq::<
                    BankAccountEvent,
                >::empty(),
                Err(x) => r == Err::<BankAccountAggregate, BankAccountError>(x),
            },
    {
        match self.event_store.get_events(id) {
            Ok(events) => {
                proof {
                    lemma_replay_from_errors(AccountView::Uninitialized, events@);
                }
                let mut aggregate = BankAccountAggregate::new();
                match aggregate.apply_events(events) {
                    Ok(()) => Ok(aggregate),
                    Err(x) => Err(x),
                }
            },
            Err(x) => Err(BankAccountError::Store(x)),
        }
    }

    /// Persists the events recorded on `aggregate` since it was loaded, and
    /// only those.
    pub fn save(&mut self, aggregate: BankAccountAggregate) -> (r: Result<(), BankAccountError>)
        ensures
            r is Ok ==> final(self).event_store.log() == old(self).event_store.log()
                + aggregate.pending(),
            r is Err ==> (r matches Err(BankAccountError::Store(_))),
            r is Err ==> final(self).event_store.log() == old(self).event_store.log(),
            old(self).event_store.infallible() ==> r is Ok,
            final(self).event_store.infallible() == old(self).event_store.infallible(),
    {
        match self.event_store.save_events(aggregate.get_new_events()) {
            Ok(()) => Ok(()),
            Err(x) => Err(BankAccountError::Store(x)),
        }
    }

    /// One use case from end to end: load the addressed account, execute
    /// `command`, record the produced events and save them. The first
    /// failure ends it; the store's log then stays as it was.
    pub fn handle<C: AggregateCommand>(&mut self, command: C) -> (r: Result<
        Vec<BankAccountEvent>,
        BankAccountError,
    >)
        ensures
            old(self).event_store.infallible() ==> !(r matches Err(BankAccountError::Store(_))),
            final(self).event_store.infallible() == old(self).event_store.infallible(),
            r matches Err(BankAccountError::Store(_)) ==> final(self).event_store.log() == old(
                self,
            ).event_store.log(),
            !(r matches Err(BankAccountError::Store(_))) ==> match command_outcome(
                old(self).event_store.log(),
                command,
            ) {
                Ok(events) => r matches Ok(produced) && produced@ == events
                    && final(self).event_store.log() == old(self).event_store.log() + events,
                Err(x) => r == Err::<Vec<BankAccountEvent>, BankAccountError>(x)
                    && final(self).event_store.log() == old(self).event_store.log(),
            },
    {
        let id = command.get_aggregate_id();
        let mut aggregate = match self.load(id) {
            Ok(a) => a,
            Err(x) => return Err(x),
        };
        proof {
            lemma_replay_from_errors(aggregate@, command.decide(aggregate@)->Ok_0);
        }
        let produced = match aggregate.handle(command) {
            Ok(events) => events,
            Err(x) => return Err(x),
        };
        match self.save(aggregate) {
            Ok(()) => Ok(produced),
            Err(x) => Err(x),
        }
    }
}

/// A handler's result `r` and the store's log going from `before` to
/// `after` agree with handling `command`.
pub open spec fn handled<C: AggregateCommand>(
    before: Seq<BankAccountEvent>,
    after: Seq<BankAccountEvent>,
    command: C,
    r: Result<(), BankAccountError>,
) -> bool {
    if r matches Err(BankAccountError::Store(_)) {
        after == before
    } else {
        match command_outcome(before, command) {
            Ok(events) => r is Ok && after == before + events,
            Err(x) => r == Err::<(), BankAccountError>(x) && after == before,
        }
    }
}

/// Opens bank accounts.
pub struct OpenBankAccountHandler<S: BankAccountEventStore> {
    pub repository: BankAccountRepository<S>,
}

impl<S: BankAccountEventStore> OpenBankAccountHandler<S> {
    pub fn new(repository: BankAccountRepository<S>) -> (r: OpenBankAccountHandler<S>)
        ensures
            r.repository == repository,
    {
        OpenBankAccountHandler { repository }
    }

    pub fn handle(&mut self, command: OpenBankAccount) -> (r: Result<(), BankAccountError>)
        ensures
            handled(
                old(self).repository.event_store.log(),
                final(self).repository.event_store.log(),
                command,
                r,
            ),
            old(self).repository.event_store.infallible() ==> !(r matches Err(
                BankAccountError::Store(_),
            )),
            final(self).repository.event_store.infallible() == old(
                self,
            ).repository.event_store.infallible(),
    {
        match self.repository.handle(command) {
            Ok(_) => Ok(()),
            Err(x) => Err(x),
        }
    }
}

/// Deposits money into bank accounts.
pub struct DepositHandler<S: BankAccountEventStore> {
    pub repository: BankAccountRepository<S>,
}

impl<S: BankAccountEventStore> DepositHandler<S> {
    pub fn new(repository: BankAccountRepository<S>) -> (r: DepositHandler<S>)
        ensures
            r.repository == repository,
    {
        DepositHandler { repository }
    }

    pub fn handle(&mut self, command: DepositMoney) -> (r: Result<(), BankAccountError>)
        ensures
            handled(
                old(self).repository.event_store.log(),
                final(self).repository.event_store.log(),
                command,
                r,
            ),
            old(self).repository.event_store.infallible() ==> !(r matches Err(
                BankAccountError::Store(_),
            )),
            final(self).repository.event_store.infallible() == old(
                self,
            ).repository.event_store.infallible(),
    {
        match self.repository.handle(command) {
            Ok(_) => Ok(()),
            Err(x) => Err(x),
        }
    }
}

/// Withdraws money from bank accounts, or records the refusal.
pub struct WithdrawHandler<S: BankAccountEventStore> {
    pub repository: BankAccountRepository<S>,
}

impl<S: BankAccountEventStore> WithdrawHandler<S> {
    pub fn new(repository: BankAccountRepository<S>) -> (r: WithdrawHandler<S>)
        ensures
            r.repository == repository,
    {
        WithdrawHandler { repository }
    }

    pub fn handle(&mut self, command: WithdrawMoney) -> (r: Result<(), BankAccountError>)
        ensures
            handled(
                old(self).repository.event_store.log(),
                final(self).repository.event_store.log(),
                command,
                r,
            ),
            old(self).repository.event_store.infallible() ==> !(r matches Err(
                BankAccountError::Store(_),
            )),
            final(self).repository.event_store.infallible() == old(
                self,
            ).repository.event_store.infallible(),
    {
        match self.repository.handle(command) {
            Ok(_) => Ok(()),
            Err(x) => Err(x),
        }
    }
}

impl BankAccountRepository<InMemoryBankAccountEventStore> {
    /// A repository over an empty in-memory store.
    pub fn new_in_memory() -> (r: BankAccountRepository<InMemoryBankAccountEventStore>)
        ensures
            r.event_store.log() == Seq::<BankAccountEvent>::empty(),
            r.event_store.infallible(),
    {
        BankAccountRepository { event_store: InMemoryBankAccountEventStore::new() }
    }
}

/// Saving after a load persists exactly the events recorded since the load
/// and none of the history that was loaded: the log grows by `recorded`,
/// and replaying the grown log yields the updated aggregate.
pub proof fn lemma_save_after_load_appends_recorded(
    log: Seq<BankAccountEvent>,
    id: BankAccountId,
    loaded: BankAccountAggregate,
    recorded: Seq<BankAccountEvent>,
    updated: BankAccountAggregate,
)
    requires
        replay(events_for(log, id)) == Ok::<_, BankAccountError>(loaded@),
        loaded.pending() == Seq::<BankAccountEvent>::empty(),
        replay_from(loaded@, recorded) == Ok::<_, BankAccountError>(updated@),
        updated.pending() == loaded.pending() + recorded,
        forall|i: int| 0 <= i < recorded.len() ==> (#[trigger] recorded[i]).account_id() == id,
    ensures
        log + updated.pending() == log + recorded,
        replay(events_for(log + updated.pending(), id)) == Ok::<_, BankAccountError>(updated@),
{
    assert(updated.pending() =~= recorded);
    let keep = |e: BankAccountEvent| e.account_id() == id;
    Seq::filter_distributes_over_add(log, recorded, keep);
    assert(recorded.filter(keep) =~= recorded) by {
        lemma_filter_keeps_all(recorded, keep);
    }
    lemma_replay_from_append(
        AccountView::Uninitialized,
        events_for(log, id),
        recorded,
    );
}

/// Filtering by a predicate that every element meets keeps the sequence.
proof fn lemma_filter_keeps_all(s: Seq<BankAccountEvent>, keep: spec_fn(BankAccountEvent) -> bool)
    requires
        forall|i: int| 0 <= i < s.len() ==> keep(#[trigger] s[i]),
    ensures
        s.filter(keep) == s,
    decreases s.len(),
{
    reveal(Seq::filter);
    if s.len() > 0 {
        lemma_filter_keeps_all(s.drop_last(), keep);
        assert(s.drop_last().push(s.last()) =~= s);
    } else {
        assert(s.filter(keep) =~= s);
    }
}

} // verus!
