use vstd::prelude::*;

use crate::commands::AggregateCommand;
use crate::errors::{BankAccountError, CommandError, EventError};
use crate::events::{
    BankAccountEvent, BankAccountId, Closed, ClosingFailedDueToFundsAvailable, Credited,
    CustomerId, Debited, NotEnoughFunds, Opened,
};

verus! {

/// The data derived from an account's history.
#[derive(Debug, Clone, Copy, PartialEq, Eq, Hash, Structural)]
pub struct BankAccountState {
    pub id: BankAccountId,
    pub customer_id: CustomerId,
    pub balance: u64,
    /// How many events have been applied to the account.
    pub generation: u64,
}

impl BankAccountState {
    pub fn new(id: BankAccountId, customer_id: CustomerId) -> (r: BankAccountState)
        ensures
            r == (BankAccountState { id, customer_id, balance: 0, generation: 0 }),
    {
        BankAccountState { id, customer_id, balance: 0, generation: 0 }
    }
}

/// What an aggregate stands for: its lifecycle stage and derived data.
pub enum AccountView {
    Uninitialized,
    Opened(BankAccountState),
    Closed(BankAccountState),
}

/// A bank account as derived from its events, together with the events
/// recorded on it since it was loaded.
#[derive(Debug, Clone, PartialEq, Eq)]
pub enum BankAccountAggregate {
    Opened(BankAccountState, Vec<BankAccountEvent>),
    Closed(BankAccountState, Vec<BankAccountEvent>),
    Uninitialized,
}

impl View for BankAccountAggregate {
    type V = AccountView;

    open spec fn view(&self) -> AccountView {
        match self {
            BankAccountAggregate::Opened(s, _) => AccountView::Opened(*s),
            BankAccountAggregate::Closed(s, _) => AccountView::Closed(*s),
            BankAccountAggregate::Uninitialized => AccountView::Uninitialized,
        }
    }
}

impl BankAccountAggregate {
    /// The events recorded since load, waiting to be saved.
    pub open spec fn pending(&self) -> Seq<BankAccountEvent> {
        match self {
            BankAccountAggregate::Opened(_, p) => p@,
            BankAccountAggregate::Closed(_, p) => p@,
            BankAccountAggregate::Uninitialized => Seq::empty(),
        }
    }
}

/// What one event does to the lifecycle and the derived data, before the
/// generation counter is advanced.
pub open spec fn transition(v: AccountView, e: BankAccountEvent) -> Result<
    AccountView,
    EventError,
> {
    match e {
        BankAccountEvent::Opened(o) => match v {
            AccountView::Uninitialized => Ok(
                AccountView::Opened(
                    BankAccountState {
                        id: o.id,
                        customer_id: o.customer_id,
                        balance: 0,
                        generation: 0,
                    },
                ),
            ),
            _ => Err(EventError::AlreadyOpened),
        },
        BankAccountEvent::Credited(c) => match v {
            AccountView::Opened(s) => Ok(
                AccountView::Opened(
                    BankAccountState {
                        id: s.id,
                        customer_id: s.customer_id,
                        balance: (s.balance + c.amount) as u64,
                        generation: s.generation,
                    },
                ),
            ),
            _ => Err(EventError::NotInitialized),
        },
        BankAccountEvent::Debited(d) => match v {
            AccountView::Opened(s) => Ok(
                AccountView::Opened(
                    BankAccountState {
                        id: s.id,
                        customer_id: s.customer_id,
                        balance: (s.balance - d.amount) as u64,
                        generation: s.generation,
                    },
                ),
            ),
            _ => Err(EventError::NotInitialized),
        },
        BankAccountEvent::NotEnoughFunds(_) => match v {
            AccountView::Opened(_) => Ok(v),
            _ => Err(EventError::NotInitialized),
        },
        BankAccountEvent::Closed(_) => match v {
            AccountView::Opened(s) => Ok(AccountView::Closed(s)),
            _ => Err(EventError::NotOpened),
        },
        BankAccountEvent::ClosingFailedDueToFundsAvailable(_) => match v {
            AccountView::Opened(_) => Ok(v),
            _ => Err(EventError::NotOpened),
        },
    }
}

/// The generation counter of a view (zero before the account exists).
pub open spec fn generation_of(v: AccountView) -> u64 {
    match v {
        AccountView::Opened(s) => s.generation,
        AccountView::Closed(s) => s.generation,
        AccountView::Uninitialized => 0,
    }
}

/// The view with its generation counter advanced by one.
pub open spec fn next_generation(v: AccountView) -> AccountView {
    match v {
        AccountView::Opened(s) => AccountView::Opened(
            BankAccountState {
                id: s.id,
                customer_id: s.customer_id,
                balance: s.balance,
                generation: (s.generation + 1) as u64,
            },
        ),
        AccountView::Closed(s) => AccountView::Closed(
            BankAccountState {
                id: s.id,
                customer_id: s.customer_id,
                balance: s.balance,
                generation: (s.generation + 1) as u64,
            },
        ),
        AccountView::Uninitialized => AccountView::Uninitialized,
    }
}

/// The balance arithmetic of `transition` stays within `u64`.
pub open spec fn transition_within_limits(v: AccountView, e: BankAccountEvent) -> bool {
    match v {
        AccountView::Opened(s) => match e {
            BankAccountEvent::Credited(c) => s.balance + c.amount <= u64::MAX,
            BankAccountEvent::Debited(d) => d.amount <= s.balance,
            _ => true,
        },
        _ => true,
    }
}

/// Applying `e` to `v` keeps the balance and the generation counter within `u64`.
pub open spec fn within_limits(v: AccountView, e: BankAccountEvent) -> bool {
    &&& transition_within_limits(v, e)
    &&& transition(v, e) is Ok ==> generation_of(transition(v, e)->Ok_0) < u64::MAX
}

/// Applying one event: the transition, then one more generation.
pub open spec fn step(v: AccountView, e: BankAccountEvent) -> Result<AccountView, EventError> {
    match transition(v, e) {
        Ok(w) => Ok(next_generation(w)),
        Err(x) => Err(x),
    }
}

/// Applying one event where the arithmetic may not fit: an illegal event
/// gives its `EventError`; a legal one that would leave the range of `u64`
/// gives `CantApplyEvent`.
pub open spec fn checked_step(v: AccountView, e: BankAccountEvent) -> Result<
    AccountView,
    BankAccountError,
> {
    match step(v, e) {
        Err(x) => Err(BankAccountError::Event(x)),
        Ok(w) => if within_limits(v, e) {
            Ok(w)
        } else {
            Err(BankAccountError::CantApplyEvent)
        },
    }
}

/// Folding `events`, oldest first, onto `v`; the first failure ends the fold.
pub open spec fn replay_from(v: AccountView, events: Seq<BankAccountEvent>) -> Result<
    AccountView,
    BankAccountError,
>
    decreases events.len(),
{
    if events.len() == 0 {
        Ok(v)
    } else {
        match replay_from(v, events.drop_last()) {
            Ok(w) => checked_step(w, events.last()),
            Err(x) => Err(x),
        }
    }
}

/// The state that a history yields when replayed onto a fresh aggregate.
pub open spec fn replay(events: Seq<BankAccountEvent>) -> Result<AccountView, BankAccountError> {
    replay_from(AccountView::Uninitialized, events)
}

/// `after` is `before` with one event applied as `expected` says, and `r`
/// reports it; on failure nothing changed.
pub open spec fn applied_as(
    before: BankAccountAggregate,
    after: BankAccountAggregate,
    r: Result<(), EventError>,
    expected: Result<AccountView, EventError>,
) -> bool {
    match expected {
        Ok(v) => r is Ok && after@ == v && after.pending() == before.pending(),
        Err(x) => r == Err::<(), EventError>(x) && after == before,
    }
}

/// An event that knows how to change an aggregate.
pub trait AggregateEvent: Sized {
    /// This event as one of the account's events.
    spec fn as_event(&self) -> BankAccountEvent;

    /// The lifecycle and data change of this event, without advancing the
    /// generation counter. On failure nothing changes.
    fn apply_to(self, aggregate: &mut BankAccountAggregate) -> (r: Result<(), EventError>)
        requires
            transition_within_limits(old(aggregate)@, self.as_event()),
        ensures
            applied_as(
                *old(aggregate),
                *final(aggregate),
                r,
                transition(old(aggregate)@, self.as_event()),
            ),
    ;
}

impl AggregateEvent for Opened {
    open spec fn as_event(&self) -> BankAccountEvent {
        BankAccountEvent::Opened(*self)
    }

    fn apply_to(self, aggregate: &mut BankAccountAggregate) -> (r: Result<(), EventError>) {
        match aggregate {
            BankAccountAggregate::Uninitialized => {
                *aggregate = BankAccountAggregate::Opened(
                    BankAccountState::new(self.id, self.customer_id),
                    Vec::new(),
                );
                Ok(())
            },
            _ => Err(EventError::AlreadyOpened),
        }
    }
}

impl AggregateEvent for Credited {
    open spec fn as_event(&self) -> BankAccountEvent {
        BankAccountEvent::Credited(*self)
    }

    fn apply_to(self, aggregate: &mut BankAccountAggregate) -> (r: Result<(), EventError>) {
        match aggregate {
            BankAccountAggregate::Opened(data, _) => {
                data.balance = data.balance + self.amount;
                Ok(())
            },
            _ => Err(EventError::NotInitialized),
        }
    }
}

impl AggregateEvent for Debited {
    open spec fn as_event(&self) -> BankAccountEvent {
        BankAccountEvent::Debited(*self)
    }

    fn apply_to(self, aggregate: &mut BankAccountAggregate) -> (r: Result<(), EventError>) {
        match aggregate {
            BankAccountAggregate::Opened(data, _) => {
                data.balance = data.balance - self.amount;
                Ok(())
            },
            _ => Err(EventError::NotInitialized),
        }
    }
}

impl AggregateEvent for NotEnoughFunds {
    open spec fn as_event(&self) -> BankAccountEvent {
        BankAccountEvent::NotEnoughFunds(*self)
    }

    fn apply_to(self, aggregate: &mut BankAccountAggregate) -> (r: Result<(), EventError>) {
        match aggregate {
            BankAccountAggregate::Opened(_, _) => Ok(()),
            _ => Err(EventError::NotInitialized),
        }
    }
}

impl AggregateEvent for Closed {
    open spec fn as_event(&self) -> BankAccountEvent {
        BankAccountEvent::Closed(*self)
    }

    fn apply_to(self, aggregate: &mut BankAccountAggregate) -> (r: Result<(), EventError>) {
        match aggregate {
            BankAccountAggregate::Opened(data, pending) => {
                let state = *data;
                let mut recorded: Vec<BankAccountEvent> = Vec::new();
                std::mem::swap(pending, &mut recorded);
                *aggregate = BankAccountAggregate::Closed(state, recorded);
                Ok(())
            },
            _ => Err(EventError::NotOpened),
        }
    }
}

impl AggregateEvent for ClosingFailedDueToFundsAvailable {
    open spec fn as_event(&self) -> BankAccountEvent {
        BankAccountEvent::ClosingFailedDueToFundsAvailable(*self)
    }

    fn apply_to(self, aggregate: &mut BankAccountAggregate) -> (r: Result<(), EventError>) {
        match aggregate {
            BankAccountAggregate::Opened(_, _) => Ok(()),
            _ => Err(EventError::NotOpened),
        }
    }
}

impl AggregateEvent for BankAccountEvent {
    open spec fn as_event(&self) -> BankAccountEvent {
        *self
    }

    fn apply_to(self, aggregate: &mut BankAccountAggregate) -> (r: Result<(), EventError>) {
        match self {
            BankAccountEvent::Opened(e) => e.apply_to(aggregate),
            BankAccountEvent::Credited(e) => e.apply_to(aggregate),
            BankAccountEvent::Debited(e) => e.apply_to(aggregate),
            BankAccountEvent::NotEnoughFunds(e) => e.apply_to(aggregate),
            BankAccountEvent::Closed(e) => e.apply_to(aggregate),
            BankAccountEvent::ClosingFailedDueToFundsAvailable(e) => e.apply_to(aggregate),
        }
    }
}

impl Default for BankAccountAggregate {
    fn default() -> (r: BankAccountAggregate)
        ensures
            r@ == AccountView::Uninitialized,
            r.pending() == Seq::<BankAccountEvent>::empty(),
    {
        BankAccountAggregate::Uninitialized
    }
}

impl BankAccountAggregate {
    /// A fresh aggregate: no events applied.
    pub fn new() -> (r: BankAccountAggregate)
        ensures
            r@ == AccountView::Uninitialized,
            r.pending() == Seq::<BankAccountEvent>::empty(),
    {
        BankAccountAggregate::Uninitialized
    }

    /// Counts one more applied event.
    pub fn increment_generation(&mut self)
        requires
            !(old(self)@ is Uninitialized),
            generation_of(old(self)@) < u64::MAX,
        ensures
            final(self)@ == next_generation(old(self)@),
            final(self).pending() == old(self).pending(),
    {
        match self {
            BankAccountAggregate::Opened(data, _) => data.generation = data.generation + 1,
            BankAccountAggregate::Closed(data, _) => data.generation = data.generation + 1,
            BankAccountAggregate::Uninitialized => {},
        }
    }

    /// Whether applying `event` keeps the balance and generation within `u64`.
    pub fn admits(&self, event: &BankAccountEvent) -> (r: bool)
        ensures
            r == within_limits(self@, *event),
    {
        match self {
            BankAccountAggregate::Opened(data, _) => match event {
                BankAccountEvent::Opened(_) => true,
                BankAccountEvent::Credited(c) => data.generation < u64::MAX && c.amount
                    <= u64::MAX - data.balance,
                BankAccountEvent::Debited(d) => data.generation < u64::MAX && d.amount
                    <= data.balance,
                BankAccountEvent::NotEnoughFunds(_) => data.generation < u64::MAX,
                BankAccountEvent::Closed(_) => data.generation < u64::MAX,
                BankAccountEvent::ClosingFailedDueToFundsAvailable(_) => data.generation
                    < u64::MAX,
            },
            BankAccountAggregate::Closed(_, _) => true,
            BankAccountAggregate::Uninitialized => true,
        }
    }

    /// Applies one event: checks that it is legal in the current stage,
    /// changes the state, and advances the generation counter. On failure
    /// nothing changes.
    pub fn apply<E: AggregateEvent>(&mut self, event: E) -> (r: Result<(), EventError>)
        requires
            within_limits(old(self)@, event.as_event()),
        ensures
            applied_as(*old(self), *final(self), r, step(old(self)@, event.as_event())),
    {
        let result = event.apply_to(self);
        match result {
            Ok(()) => {
                self.increment_generation();
                Ok(())
            },
            Err(x) => Err(x),
        }
    }
}

impl BankAccountAggregate {
    /// The same lifecycle stage and data, with no recorded events.
    fn snapshot(&self) -> (r: BankAccountAggregate)
        ensures
            r@ == self@,
            r.pending() == Seq::<BankAccountEvent>::empty(),
    {
        match self {
            BankAccountAggregate::Opened(data, _) => BankAccountAggregate::Opened(*data, Vec::new()),
            BankAccountAggregate::Closed(data, _) => BankAccountAggregate::Closed(*data, Vec::new()),
            BankAccountAggregate::Uninitialized => BankAccountAggregate::Uninitialized,
        }
    }

    /// Moves the recorded events out, leaving none.
    fn take_pending(&mut self) -> (r: Vec<BankAccountEvent>)
        ensures
            r@ == old(self).pending(),
            final(self)@ == old(self)@,
            final(self).pending() == Seq::<BankAccountEvent>::empty(),
    {
        let mut taken: Vec<BankAccountEvent> = Vec::new();
        match self {
            BankAccountAggregate::Opened(_, pending) => std::mem::swap(pending, &mut taken),
            BankAccountAggregate::Closed(_, pending) => std::mem::swap(pending, &mut taken),
            BankAccountAggregate::Uninitialized => {},
        }
        taken
    }

    /// Replaces the recorded events.
    fn put_pending(&mut self, events: Vec<BankAccountEvent>)
        requires
            old(self)@ is Uninitialized ==> events@.len() == 0,
        ensures
            final(self)@ == old(self)@,
            final(self).pending() == events@,
    {
        let mut events = events;
        match self {
            BankAccountAggregate::Opened(_, pending) => std::mem::swap(pending, &mut events),
            BankAccountAggregate::Closed(_, pending) => std::mem::swap(pending, &mut events),
            BankAccountAggregate::Uninitialized => {},
        }
    }

    /// Folds `events` onto a copy of this aggregate's state.
    fn fold(&self, events: &Vec<BankAccountEvent>) -> (r: Result<
        BankAccountAggregate,
        BankAccountError,
    >)
        ensures
            match replay_from(self@, events@) {
                Ok(v) => r matches Ok(a) && a@ == v && a.pending() == Seq::<
                    BankAccountEvent,
                >::empty(),
                Err(x) => r == Err::<BankAccountAggregate, BankAccountError>(x),
            },
    {
        let mut work = self.snapshot();
        let mut i: usize = 0;
        while i < events.len()
            invariant
                0 <= i <= events@.len(),
                replay_from(self@, events@.take(i as int)) == Ok::<AccountView, BankAccountError>(work@),
                work.pending() == Seq::<BankAccountEvent>::empty(),
            decreases events@.len() - i,
        {
            let event = events[i];
            proof {
                assert(events@.take(i + 1).drop_last() =~= events@.take(i as int));
            }
            if !work.admits(&event) {
                proof {
                    lemma_replay_from_failure_persists(self@, events@, i + 1);
                }
                return Err(BankAccountError::CantApplyEvent);
            }
            match work.apply(event) {
                Ok(()) => {},
                Err(x) => {
                    proof {
                        lemma_replay_from_failure_persists(self@, events@, i + 1);
                    }
                    return Err(BankAccountError::Event(x));
                },
            }
            i = i + 1;
        }
        proof {
            assert(events@.take(events@.len() as int) =~= events@);
        }
        Ok(work)
    }

    /// Replays `events`, oldest first, onto the current state. All or
    /// nothing: on the first illegal event, or one that would leave the
    /// range of `u64`, the aggregate stays as it was.
    pub fn apply_events(&mut self, events: Vec<BankAccountEvent>) -> (r: Result<
        (),
        BankAccountError,
    >)
        ensures
            match replay_from(old(self)@, events@) {
                Ok(v) => r is Ok && final(self)@ == v && final(self).pending() == old(
                    self,
                ).pending(),
                Err(x) => r == Err::<(), BankAccountError>(x) && *final(self) == *old(self),
            },
    {
        match self.fold(&events) {
            Ok(mut work) => {
                proof {
                    if !(old(self)@ is Uninitialized) || events@.len() > 0 {
                        lemma_replay_from_keeps_initialized(old(self)@, events@);
                    }
                }
                let recorded = self.take_pending();
                work.put_pending(recorded);
                *self = work;
                Ok(())
            },
            Err(x) => Err(x),
        }
    }

    /// Applies `event` and adds it to the events waiting to be saved. On
    /// failure nothing is applied or recorded.
    pub fn record(&mut self, event: BankAccountEvent) -> (r: Result<(), BankAccountError>)
        ensures
            match checked_step(old(self)@, event) {
                Ok(v) => r is Ok && final(self)@ == v && final(self).pending() == old(
                    self,
                ).pending().push(event),
                Err(x) => r == Err::<(), BankAccountError>(x) && *final(self) == *old(self),
            },
    {
        if !self.admits(&event) {
            return Err(BankAccountError::CantApplyEvent);
        }
        match self.apply(event) {
            Ok(()) => {
                let mut recorded = self.take_pending();
                recorded.push(event);
                self.put_pending(recorded);
                Ok(())
            },
            Err(x) => Err(BankAccountError::Event(x)),
        }
    }

    /// Applies and records `events` in order, all or nothing.
    pub fn record_events(&mut self, events: Vec<BankAccountEvent>) -> (r: Result<
        (),
        BankAccountError,
    >)
        ensures
            match replay_from(old(self)@, events@) {
                Ok(v) => r is Ok && final(self)@ == v && final(self).pending() == old(
                    self,
                ).pending() + events@,
                Err(x) => r == Err::<(), BankAccountError>(x) && *final(self) == *old(self),
            },
    {
        match self.fold(&events) {
            Ok(mut work) => {
                proof {
                    if !(old(self)@ is Uninitialized) || events@.len() > 0 {
                        lemma_replay_from_keeps_initialized(old(self)@, events@);
                    }
                }
                let mut recorded = self.take_pending();
                let mut added = events;
                recorded.append(&mut added);
                work.put_pending(recorded);
                *self = work;
                Ok(())
            },
            Err(x) => Err(x),
        }
    }

    /// The events recorded since load, oldest first.
    pub fn get_new_events(&self) -> (r: Vec<BankAccountEvent>)
        ensures
            r@ == self.pending(),
    {
        match self {
            BankAccountAggregate::Opened(_, pending) => pending.clone(),
            BankAccountAggregate::Closed(_, pending) => pending.clone(),
            BankAccountAggregate::Uninitialized => Vec::new(),
        }
    }
}

impl BankAccountAggregate {
    /// The events that `command` would produce on this aggregate; the
    /// aggregate itself is left untouched.
    pub fn execute<C: AggregateCommand>(&self, command: C) -> (r: Result<
        Vec<BankAccountEvent>,
        CommandError,
    >)
        ensures
            match command.decide(self@) {
                Ok(events) => r matches Ok(produced) && produced@ == events,
                Err(x) => r == Err::<Vec<BankAccountEvent>, CommandError>(x),
            },
    {
        command.execute_on(self)
    }

    /// Executes `command` and records the events it produces, returning
    /// them. A rejected command, or events that cannot be applied, leave the
    /// aggregate unchanged.
    pub fn handle<C: AggregateCommand>(&mut self, command: C) -> (r: Result<
        Vec<BankAccountEvent>,
        BankAccountError,
    >)
        ensures
            match command.decide(old(self)@) {
                Err(x) => r == Err::<Vec<BankAccountEvent>, BankAccountError>(
                    BankAccountError::Command(x),
                ) && *final(self) == *old(self),
                Ok(events) => match replay_from(old(self)@, events) {
                    Ok(v) => r matches Ok(produced) && produced@ == events && final(self)@ == v
                        && final(self).pending() == old(self).pending() + events,
                    Err(x) => r == Err::<Vec<BankAccountEvent>, BankAccountError>(x)
                        && *final(self) == *old(self),
                },
            },
    {
        match self.execute(command) {
            Ok(events) => {
                let produced = events.clone();
                match self.record_events(events) {
                    Ok(()) => Ok(produced),
                    Err(x) => Err(x),
                }
            },
            Err(x) => Err(BankAccountError::Command(x)),
        }
    }
}

/// Replay is deterministic: two fresh aggregates fed the same history end
/// in the same state, namely the one `replay` gives.
pub proof fn lemma_replay_deterministic(
    a: BankAccountAggregate,
    b: BankAccountAggregate,
    events: Seq<BankAccountEvent>,
)
    requires
        a@ is Uninitialized,
        b@ is Uninitialized,
    ensures
        replay_from(a@, events) == replay_from(b@, events),
        replay_from(a@, events) == replay(events),
{
}

/// State is a fold over the whole ordered history: replaying `first + rest`
/// is replaying `rest` onto the state that `first` yields.
pub proof fn lemma_replay_from_append(
    v: AccountView,
    first: Seq<BankAccountEvent>,
    rest: Seq<BankAccountEvent>,
)
    ensures
        replay_from(v, first + rest) == match replay_from(v, first) {
            Ok(w) => replay_from(w, rest),
            Err(x) => Err(x),
        },
    decreases rest.len(),
{
    if rest.len() == 0 {
        assert(first + rest =~= first);
    } else {
        assert((first + rest).drop_last() =~= first + rest.drop_last());
        assert((first + rest).last() == rest.last());
        lemma_replay_from_append(v, first, rest.drop_last());
    }
}

/// The generation counter counts the events applied: a successful replay
/// of `events` onto `v` advances it by exactly `events.len()`.
pub proof fn lemma_replay_counts_generations(v: AccountView, events: Seq<BankAccountEvent>)
    requires
        replay_from(v, events) is Ok,
    ensures
        generation_of(replay_from(v, events)->Ok_0) == generation_of(v) + events.len(),
    decreases events.len(),
{
    if events.len() > 0 {
        lemma_replay_counts_generations(v, events.drop_last());
    }
}

/// An opened event on an account that already exists is rejected with
/// `AlreadyOpened`; `apply` then leaves the state and the generation as
/// they were.
pub proof fn lemma_reopening_rejected(v: AccountView, opened: Opened)
    requires
        !(v is Uninitialized),
    ensures
        step(v, BankAccountEvent::Opened(opened)) == Err::<AccountView, EventError>(
            EventError::AlreadyOpened,
        ),
        within_limits(v, BankAccountEvent::Opened(opened)),
{
}

/// A fold fails only on an illegal event or on leaving the range of `u64`.
pub proof fn lemma_replay_from_errors(v: AccountView, events: Seq<BankAccountEvent>)
    ensures
        replay_from(v, events) matches Err(x) ==> (x is Event || x is CantApplyEvent),
    decreases events.len(),
{
    if events.len() > 0 {
        lemma_replay_from_errors(v, events.drop_last());
    }
}

/// Once a fold has failed on a prefix of a history, it fails on the whole
/// history with the same error.
proof fn lemma_replay_from_failure_persists(v: AccountView, events: Seq<BankAccountEvent>, k: int)
    requires
        0 <= k <= events.len(),
        replay_from(v, events.take(k)) is Err,
    ensures
        replay_from(v, events) == replay_from(v, events.take(k)),
    decreases events.len() - k,
{
    if k < events.len() {
        assert(events.take(k + 1).drop_last() =~= events.take(k));
        lemma_replay_from_failure_persists(v, events, k + 1);
    } else {
        assert(events.take(k) =~= events);
    }
}

/// A successful fold that does something leaves an initialised aggregate.
proof fn lemma_replay_from_keeps_initialized(v: AccountView, events: Seq<BankAccountEvent>)
    requires
        replay_from(v, events) is Ok,
        !(v is Uninitialized) || events.len() > 0,
    ensures
        !(replay_from(v, events)->Ok_0 is Uninitialized),
{
}

} // verus!
