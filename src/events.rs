use vstd::prelude::*;

verus! {

pub type BankAccountId = u64;

pub type CustomerId = u64;

/// Something that happened, with a stable symbolic name for diagnostics.
pub trait Event {
    /// The symbolic name of this kind of event.
    spec fn event_name(&self) -> Seq<char>;

    fn event_type(&self) -> (r: &'static str)
        ensures
            r@ == self.event_name(),
    ;
}

#[derive(Debug, Clone, Copy, PartialEq, Eq, Hash, Structural)]
pub struct Opened {
    pub id: BankAccountId,
    pub customer_id: CustomerId,
}

#[derive(Debug, Clone, Copy, PartialEq, Eq, Hash, Structural)]
pub struct Credited {
    pub id: BankAccountId,
    pub amount: u64,
}

#[derive(Debug, Clone, Copy, PartialEq, Eq, Hash, Structural)]
pub struct Debited {
    pub id: BankAccountId,
    pub amount: u64,
}

/// A withdrawal was refused: `amount` exceeded `current_balance`.
#[derive(Debug, Clone, Copy, PartialEq, Eq, Hash, Structural)]
pub struct NotEnoughFunds {
    pub id: BankAccountId,
    pub amount: u64,
    pub current_balance: u64,
}

#[derive(Debug, Clone, Copy, PartialEq, Eq, Hash, Structural)]
pub struct Closed {
    pub id: BankAccountId,
}

/// Closing was refused because the account still holds `current_balance`.
#[derive(Debug, Clone, Copy, PartialEq, Eq, Hash, Structural)]
pub struct ClosingFailedDueToFundsAvailable {
    pub id: BankAccountId,
    pub current_balance: u64,
}

/// Every fact that can be recorded about one bank account.
#[derive(Debug, Clone, Copy, PartialEq, Eq, Hash, Structural)]
pub enum BankAccountEvent {
    Opened(Opened),
    Credited(Credited),
    Debited(Debited),
    NotEnoughFunds(NotEnoughFunds),
    Closed(Closed),
    ClosingFailedDueToFundsAvailable(ClosingFailedDueToFundsAvailable),
}

impl BankAccountEvent {
    /// The identity of the account the event belongs to.
    pub open spec fn account_id(self) -> BankAccountId {
        match self {
            BankAccountEvent::Opened(e) => e.id,
            BankAccountEvent::Credited(e) => e.id,
            BankAccountEvent::Debited(e) => e.id,
            BankAccountEvent::NotEnoughFunds(e) => e.id,
            BankAccountEvent::Closed(e) => e.id,
            BankAccountEvent::ClosingFailedDueToFundsAvailable(e) => e.id,
        }
    }

    pub fn get_aggregate_id(&self) -> (r: BankAccountId)
        ensures
            r == self.account_id(),
    {
        match self {
            BankAccountEvent::Opened(e) => e.id,
            BankAccountEvent::Credited(e) => e.id,
            BankAccountEvent::Debited(e) => e.id,
            BankAccountEvent::NotEnoughFunds(e) => e.id,
            BankAccountEvent::Closed(e) => e.id,
            BankAccountEvent::ClosingFailedDueToFundsAvailable(e) => e.id,
        }
    }

    pub fn opened(id: BankAccountId, customer_id: CustomerId) -> (r: BankAccountEvent)
        ensures
            r == BankAccountEvent::Opened(Opened { id, customer_id }),
    {
        BankAccountEvent::Opened(Opened { id, customer_id })
    }

    pub fn credited(id: BankAccountId, amount: u64) -> (r: BankAccountEvent)
        ensures
            r == BankAccountEvent::Credited(Credited { id, amount }),
    {
        BankAccountEvent::Credited(Credited { id, amount })
    }

    pub fn debited(id: BankAccountId, amount: u64) -> (r: BankAccountEvent)
        ensures
            r == BankAccountEvent::Debited(Debited { id, amount }),
    {
        BankAccountEvent::Debited(Debited { id, amount })
    }

    pub fn not_enough_funds(id: BankAccountId, amount: u64, current_balance: u64) -> (r:
        BankAccountEvent)
        ensures
            r == BankAccountEvent::NotEnoughFunds(NotEnoughFunds { id, amount, current_balance }),
    {
        BankAccountEvent::NotEnoughFunds(NotEnoughFunds { id, amount, current_balance })
    }

    pub fn closed(id: BankAccountId) -> (r: BankAccountEvent)
        ensures
            r == BankAccountEvent::Closed(Closed { id }),
    {
        BankAccountEvent::Closed(Closed { id })
    }

    pub fn closing_failed_due_to_funds_available(id: BankAccountId, current_balance: u64) -> (r:
        BankAccountEvent)
        ensures
            r == BankAccountEvent::ClosingFailedDueToFundsAvailable(
                ClosingFailedDueToFundsAvailable { id, current_balance },
            ),
    {
        BankAccountEvent::ClosingFailedDueToFundsAvailable(
            ClosingFailedDueToFundsAvailable { id, current_balance },
        )
    }
}

impl Event for Opened {
    open spec fn event_name(&self) -> Seq<char> {
        "opened"@
    }

    fn event_type(&self) -> (r: &'static str) {
        "opened"
    }
}

impl Event for Credited {
    open spec fn event_name(&self) -> Seq<char> {
        "credited"@
    }

    fn event_type(&self) -> (r: &'static str) {
        "credited"
    }
}

impl Event for Debited {
    open spec fn event_name(&self) -> Seq<char> {
        "debited"@
    }

    fn event_type(&self) -> (r: &'static str) {
        "debited"
    }
}

impl Event for NotEnoughFunds {
    open spec fn event_name(&self) -> Seq<char> {
        "not_enough_funds"@
    }

    fn event_type(&self) -> (r: &'static str) {
        "not_enough_funds"
    }
}

impl Event for Closed {
    open spec fn event_name(&self) -> Seq<char> {
        "closed"@
    }

    fn event_type(&self) -> (r: &'static str) {
        "closed"
    }
}

impl Event for ClosingFailedDueToFundsAvailable {
    open spec fn event_name(&self) -> Seq<char> {
        "closing_failed_due_to_funds_available"@
    }

    fn event_type(&self) -> (r: &'static str) {
        "closing_failed_due_to_funds_available"
    }
}

impl Event for BankAccountEvent {
    open spec fn event_name(&self) -> Seq<char> {
        match self {
            BankAccountEvent::Opened(e) => e.event_name(),
            BankAccountEvent::Credited(e) => e.event_name(),
            BankAccountEvent::Debited(e) => e.event_name(),
            BankAccountEvent::NotEnoughFunds(e) => e.event_name(),
            BankAccountEvent::Closed(e) => e.event_name(),
            BankAccountEvent::ClosingFailedDueToFundsAvailable(e) => e.event_name(),
        }
    }

    fn event_type(&self) -> (r: &'static str) {
        match self {
            BankAccountEvent::Opened(e) => e.event_type(),
            BankAccountEvent::Credited(e) => e.event_type(),
            BankAccountEvent::Debited(e) => e.event_type(),
            BankAccountEvent::NotEnoughFunds(e) => e.event_type(),
            BankAccountEvent::Closed(e) => e.event_type(),
            BankAccountEvent::ClosingFailedDueToFundsAvailable(e) => e.event_type(),
        }
    }
}

/// Which variant an event is, as a number for comparing kinds.
pub open spec fn event_kind(e: BankAccountEvent) -> int {
    match e {
        BankAccountEvent::Opened(_) => 0,
        BankAccountEvent::Credited(_) => 1,
        BankAccountEvent::Debited(_) => 2,
        BankAccountEvent::NotEnoughFunds(_) => 3,
        BankAccountEvent::Closed(_) => 4,
        BankAccountEvent::ClosingFailedDueToFundsAvailable(_) => 5,
    }
}

/// Events of different kinds have different symbolic names, and events of
/// the same kind share one.
pub proof fn lemma_event_type_identifies_kind(a: BankAccountEvent, b: BankAccountEvent)
    ensures
        (a.event_name() == b.event_name()) <==> (event_kind(a) == event_kind(b)),
{
    reveal_strlit("opened");
    reveal_strlit("credited");
    reveal_strlit("debited");
    reveal_strlit("not_enough_funds");
    reveal_strlit("closed");
    reveal_strlit("closing_failed_due_to_funds_available");
    if event_kind(a) != event_kind(b) {
        assert(a.event_name()[0] != b.event_name()[0] || a.event_name().len() != b.event_name().len()
            || a.event_name()[1] != b.event_name()[1] || a.event_name()[2] != b.event_name()[2]
            || a.event_name()[3] != b.event_name()[3]);
    }
}

} // verus!
