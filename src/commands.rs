use vstd::prelude::*;

use crate::aggregate::{AccountView, BankAccountAggregate, BankAccountState};
use crate::errors::CommandError;
use crate::events::{
    BankAccountEvent, BankAccountId, Closed, ClosingFailedDueToFundsAvailable, Credited,
    CustomerId, Debited, NotEnoughFunds, Opened,
};

verus! {

/// A request to change an account. Executing it never changes the
/// aggregate: it yields the events that would result, or a `CommandError`.
pub trait AggregateCommand: Sized {
    /// The events this command yields on an account in state `v`.
    spec fn decide(&self, v: AccountView) -> Result<Seq<BankAccountEvent>, CommandError>;

    /// The symbolic name of this kind of command.
    spec fn command_name(&self) -> Seq<char>;

    fn execute_on(self, aggregate: &BankAccountAggregate) -> (r: Result<
        Vec<BankAccountEvent>,
        CommandError,
    >)
        ensures
            match self.decide(aggregate@) {
                Ok(events) => r matches Ok(produced) && produced@ == events,
                Err(x) => r == Err::<Vec<BankAccountEvent>, CommandError>(x),
            },
    ;

    fn command_type(&self) -> (r: &'static str)
        ensures
            r@ == self.command_name(),
    ;

    /// The account this command is addressed to.
    spec fn target(&self) -> BankAccountId;

    fn get_aggregate_id(&self) -> (r: BankAccountId)
        ensures
            r == self.target(),
    ;
}

#[derive(Debug, Clone, Copy, PartialEq, Eq, Hash, Structural)]
pub struct OpenBankAccount {
    pub id: BankAccountId,
    pub customer_id: CustomerId,
}

#[derive(Debug, Clone, Copy, PartialEq, Eq, Hash, Structural)]
pub struct DepositMoney {
    pub id: BankAccountId,
    pub amount: u64,
}

#[derive(Debug, Clone, Copy, PartialEq, Eq, Hash, Structural)]
pub struct WithdrawMoney {
    pub id: BankAccountId,
    pub amount: u64,
}

#[derive(Debug, Clone, Copy, PartialEq, Eq, Hash, Structural)]
pub struct CloseBankAccount {
    pub id: BankAccountId,
}

pub type OpenBankAccountPayload = OpenBankAccount;

pub type DepositPayload = DepositMoney;

pub type WithdrawPayload = WithdrawMoney;

/// Every operation that can be requested on a bank account.
#[derive(Debug, Clone, Copy, PartialEq, Eq, Hash, Structural)]
pub enum BankAccountCommand {
    OpenBankAccount(OpenBankAccountPayload),
    Deposit(DepositPayload),
    Withdraw(WithdrawPayload),
    Close(CloseBankAccount),
}

impl OpenBankAccount {
    pub fn new(id: BankAccountId, customer_id: CustomerId) -> (r: OpenBankAccount)
        ensures
            r == (OpenBankAccount { id, customer_id }),
    {
        OpenBankAccount { id, customer_id }
    }
}

impl DepositMoney {
    pub fn new(id: BankAccountId, amount: u64) -> (r: DepositMoney)
        ensures
            r == (DepositMoney { id, amount }),
    {
        DepositMoney { id, amount }
    }
}

impl WithdrawMoney {
    pub fn new(id: BankAccountId, amount: u64) -> (r: WithdrawMoney)
        ensures
            r == (WithdrawMoney { id, amount }),
    {
        WithdrawMoney { id, amount }
    }
}

impl CloseBankAccount {
    pub fn new(id: BankAccountId) -> (r: CloseBankAccount)
        ensures
            r == (CloseBankAccount { id }),
    {
        CloseBankAccount { id }
    }
}

impl BankAccountCommand {
    pub fn open_acc(id: BankAccountId, customer_id: CustomerId) -> (r: BankAccountCommand)
        ensures
            r == BankAccountCommand::OpenBankAccount(OpenBankAccount { id, customer_id }),
    {
        BankAccountCommand::OpenBankAccount(OpenBankAccount { id, customer_id })
    }

    pub fn deposit(id: BankAccountId, amount: u64) -> (r: BankAccountCommand)
        ensures
            r == BankAccountCommand::Deposit(DepositMoney { id, amount }),
    {
        BankAccountCommand::Deposit(DepositMoney { id, amount })
    }

    pub fn withdraw(id: BankAccountId, amount: u64) -> (r: BankAccountCommand)
        ensures
            r == BankAccountCommand::Withdraw(WithdrawMoney { id, amount }),
    {
        BankAccountCommand::Withdraw(WithdrawMoney { id, amount })
    }

    pub fn close(id: BankAccountId) -> (r: BankAccountCommand)
        ensures
            r == BankAccountCommand::Close(CloseBankAccount { id }),
    {
        BankAccountCommand::Close(CloseBankAccount { id })
    }
}

impl AggregateCommand for OpenBankAccount {
    /// Opening is allowed only on an account that does not exist yet.
    open spec fn decide(&self, v: AccountView) -> Result<Seq<BankAccountEvent>, CommandError> {
        match v {
            AccountView::Uninitialized => Ok(
                seq![BankAccountEvent::Opened(Opened { id: self.id, customer_id: self.customer_id })],
            ),
            _ => Err(CommandError::AlreadyCreated),
        }
    }

    open spec fn command_name(&self) -> Seq<char> {
        "open_bank_account"@
    }

    fn execute_on(self, aggregate: &BankAccountAggregate) -> (r: Result<
        Vec<BankAccountEvent>,
        CommandError,
    >) {
        match aggregate {
            BankAccountAggregate::Uninitialized => Ok(
                vec![BankAccountEvent::opened(self.id, self.customer_id)],
            ),
            _ => Err(CommandError::AlreadyCreated),
        }
    }

    fn command_type(&self) -> (r: &'static str) {
        "open_bank_account"
    }

    open spec fn target(&self) -> BankAccountId {
        self.id
    }

    fn get_aggregate_id(&self) -> (r: BankAccountId) {
        self.id
    }
}

impl AggregateCommand for DepositMoney {
    open spec fn decide(&self, v: AccountView) -> Result<Seq<BankAccountEvent>, CommandError> {
        match v {
            AccountView::Opened(_) => Ok(
                seq![BankAccountEvent::Credited(Credited { id: self.id, amount: self.amount })],
            ),
            _ => Err(CommandError::NotOpened),
        }
    }

    open spec fn command_name(&self) -> Seq<char> {
        "deposit_money"@
    }

    fn execute_on(self, aggregate: &BankAccountAggregate) -> (r: Result<
        Vec<BankAccountEvent>,
        CommandError,
    >) {
        match aggregate {
            BankAccountAggregate::Opened(_, _) => Ok(
                vec![BankAccountEvent::credited(self.id, self.amount)],
            ),
            _ => Err(CommandError::NotOpened),
        }
    }

    fn command_type(&self) -> (r: &'static str) {
        "deposit_money"
    }

    open spec fn target(&self) -> BankAccountId {
        self.id
    }

    fn get_aggregate_id(&self) -> (r: BankAccountId) {
        self.id
    }
}

impl AggregateCommand for WithdrawMoney {
    /// A withdrawal beyond the balance is refused by an event, not an error.
    open spec fn decide(&self, v: AccountView) -> Result<Seq<BankAccountEvent>, CommandError> {
        match v {
            AccountView::Opened(s) => if s.balance >= self.amount {
                Ok(seq![BankAccountEvent::Debited(Debited { id: self.id, amount: self.amount })])
            } else {
                Ok(
                    seq![
                        BankAccountEvent::NotEnoughFunds(
                            NotEnoughFunds {
                                id: self.id,
                                amount: self.amount,
                                current_balance: s.balance,
                            },
                        ),
                    ],
                )
            },
            _ => Err(CommandError::NotOpened),
        }
    }

    open spec fn command_name(&self) -> Seq<char> {
        "withdraw_money"@
    }

    fn execute_on(self, aggregate: &BankAccountAggregate) -> (r: Result<
        Vec<BankAccountEvent>,
        CommandError,
    >) {
        match aggregate {
            BankAccountAggregate::Opened(data, _) => {
                if data.balance >= self.amount {
                    Ok(vec![BankAccountEvent::debited(self.id, self.amount)])
                } else {
                    Ok(vec![BankAccountEvent::not_enough_funds(self.id, self.amount, data.balance)])
                }
            },
            _ => Err(CommandError::NotOpened),
        }
    }

    fn command_type(&self) -> (r: &'static str) {
        "withdraw_money"
    }

    open spec fn target(&self) -> BankAccountId {
        self.id
    }

    fn get_aggregate_id(&self) -> (r: BankAccountId) {
        self.id
    }
}

impl AggregateCommand for CloseBankAccount {
    /// Closing needs a zero balance; otherwise it is refused by an event.
    open spec fn decide(&self, v: AccountView) -> Result<Seq<BankAccountEvent>, CommandError> {
        match v {
            AccountView::Opened(s) => if s.balance == 0 {
                Ok(seq![BankAccountEvent::Closed(Closed { id: self.id })])
            } else {
                Ok(
                    seq![
                        BankAccountEvent::ClosingFailedDueToFundsAvailable(
                            ClosingFailedDueToFundsAvailable {
                                id: self.id,
                                current_balance: s.balance,
                            },
                        ),
                    ],
                )
            },
            _ => Err(CommandError::NotOpened),
        }
    }

    open spec fn command_name(&self) -> Seq<char> {
        "close_bank_account"@
    }

    fn execute_on(self, aggregate: &BankAccountAggregate) -> (r: Result<
        Vec<BankAccountEvent>,
        CommandError,
    >) {
        match aggregate {
            BankAccountAggregate::Opened(data, _) => {
                if data.balance == 0 {
                    Ok(vec![BankAccountEvent::closed(self.id)])
                } else {
                    Ok(
                        vec![
                            BankAccountEvent::closing_failed_due_to_funds_available(
                                self.id,
                                data.balance,
                            ),
                        ],
                    )
                }
            },
            _ => Err(CommandError::NotOpened),
        }
    }

    fn command_type(&self) -> (r: &'static str) {
        "close_bank_account"
    }

    open spec fn target(&self) -> BankAccountId {
        self.id
    }

    fn get_aggregate_id(&self) -> (r: BankAccountId) {
        self.id
    }
}

impl AggregateCommand for BankAccountCommand {
    open spec fn decide(&self, v: AccountView) -> Result<Seq<BankAccountEvent>, CommandError> {
        match self {
            BankAccountCommand::OpenBankAccount(c) => c.decide(v),
            BankAccountCommand::Deposit(c) => c.decide(v),
            BankAccountCommand::Withdraw(c) => c.decide(v),
            BankAccountCommand::Close(c) => c.decide(v),
        }
    }

    open spec fn command_name(&self) -> Seq<char> {
        match self {
            BankAccountCommand::OpenBankAccount(c) => c.command_name(),
            BankAccountCommand::Deposit(c) => c.command_name(),
            BankAccountCommand::Withdraw(c) => c.command_name(),
            BankAccountCommand::Close(c) => c.command_name(),
        }
    }

    fn execute_on(self, aggregate: &BankAccountAggregate) -> (r: Result<
        Vec<BankAccountEvent>,
        CommandError,
    >) {
        match self {
            BankAccountCommand::OpenBankAccount(c) => c.execute_on(aggregate),
            BankAccountCommand::Deposit(c) => c.execute_on(aggregate),
            BankAccountCommand::Withdraw(c) => c.execute_on(aggregate),
            BankAccountCommand::Close(c) => c.execute_on(aggregate),
        }
    }

    fn command_type(&self) -> (r: &'static str) {
        match self {
            BankAccountCommand::OpenBankAccount(c) => c.command_type(),
            BankAccountCommand::Deposit(c) => c.command_type(),
            BankAccountCommand::Withdraw(c) => c.command_type(),
            BankAccountCommand::Close(c) => c.command_type(),
        }
    }

    open spec fn target(&self) -> BankAccountId {
        match self {
            BankAccountCommand::OpenBankAccount(c) => c.id,
            BankAccountCommand::Deposit(c) => c.id,
            BankAccountCommand::Withdraw(c) => c.id,
            BankAccountCommand::Close(c) => c.id,
        }
    }

    fn get_aggregate_id(&self) -> (r: BankAccountId) {
        match self {
            BankAccountCommand::OpenBankAccount(c) => c.id,
            BankAccountCommand::Deposit(c) => c.id,
            BankAccountCommand::Withdraw(c) => c.id,
            BankAccountCommand::Close(c) => c.id,
        }
    }
}

/// Withdrawing more than the balance of an opened account is not an error:
/// it succeeds with a single refusal event carrying the amount asked for and
/// the balance held.
pub proof fn lemma_overdraft_refused(s: BankAccountState, command: WithdrawMoney)
    requires
        command.amount > s.balance,
    ensures
        command.decide(AccountView::Opened(s)) == Ok::<Seq<BankAccountEvent>, CommandError>(
            seq![
                BankAccountEvent::NotEnoughFunds(
                    NotEnoughFunds {
                        id: command.id,
                        amount: command.amount,
                        current_balance: s.balance,
                    },
                ),
            ],
        ),
{
}

} // verus!
