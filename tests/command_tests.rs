use eventsourcing::aggregate::BankAccountAggregate;
use eventsourcing::commands::{
    AggregateCommand, BankAccountCommand, CloseBankAccount, DepositMoney, OpenBankAccount,
    WithdrawMoney,
};
use eventsourcing::errors::{BankAccountError, CommandError, EventError};
use eventsourcing::events::{BankAccountEvent, BankAccountId, CustomerId, Event};

const ACCOUNT_ID: BankAccountId = 123;
const CUSTOMER_ID: CustomerId = 5000;

fn aggregate_from(initial_events: Vec<BankAccountEvent>) -> BankAccountAggregate {
    let mut agg = BankAccountAggregate::default();
    for event in initial_events {
        agg.apply(event).unwrap();
    }
    agg
}

fn assert_command<C: AggregateCommand>(
    initial_events: Vec<BankAccountEvent>,
    cmd: C,
    expected: Result<Vec<BankAccountEvent>, CommandError>,
) {
    let agg = aggregate_from(initial_events);

    let result = agg.execute(cmd);

    assert_eq!(expected, result);
}

#[test]
fn closing_works() {
    assert_command(
        vec![BankAccountEvent::opened(ACCOUNT_ID, CUSTOMER_ID)],
        CloseBankAccount::new(ACCOUNT_ID),
        Ok(vec![BankAccountEvent::closed(ACCOUNT_ID)]),
    );
}

#[test]
fn cant_close_account_that_has_funds() {
    assert_command(
        vec![
            BankAccountEvent::opened(ACCOUNT_ID, CUSTOMER_ID),
            BankAccountEvent::credited(ACCOUNT_ID, 20),
        ],
        CloseBankAccount::new(ACCOUNT_ID),
        Ok(vec![BankAccountEvent::closing_failed_due_to_funds_available(ACCOUNT_ID, 20)]),
    );
}

#[test]
fn depositing_money_works() {
    assert_command(
        vec![BankAccountEvent::opened(ACCOUNT_ID, CUSTOMER_ID)],
        DepositMoney::new(ACCOUNT_ID, 49),
        Ok(vec![BankAccountEvent::credited(ACCOUNT_ID, 49)]),
    );
}

#[test]
fn open_bank_account_works() {
    assert_command(
        vec![],
        OpenBankAccount::new(ACCOUNT_ID, CUSTOMER_ID),
        Ok(vec![BankAccountEvent::opened(ACCOUNT_ID, CUSTOMER_ID)]),
    );
}

#[test]
fn cant_open_already_opened_bank_account() {
    assert_command(
        vec![BankAccountEvent::opened(ACCOUNT_ID, CUSTOMER_ID)],
        OpenBankAccount::new(ACCOUNT_ID, CUSTOMER_ID),
        Err(CommandError::AlreadyCreated),
    );
}

#[test]
fn withdrawing_money_works() {
    assert_command(
        vec![
            BankAccountEvent::opened(ACCOUNT_ID, CUSTOMER_ID),
            BankAccountEvent::credited(ACCOUNT_ID, 50),
        ],
        WithdrawMoney::new(ACCOUNT_ID, 49),
        Ok(vec![BankAccountEvent::debited(ACCOUNT_ID, 49)]),
    );
}

#[test]
fn not_enough_funds() {
    assert_command(
        vec![
            BankAccountEvent::opened(ACCOUNT_ID, CUSTOMER_ID),
            BankAccountEvent::credited(ACCOUNT_ID, 48),
        ],
        WithdrawMoney::new(ACCOUNT_ID, 49),
        Ok(vec![BankAccountEvent::not_enough_funds(ACCOUNT_ID, 49, 48)]),
    );
}

#[test]
fn opening_a_bank_account_emits_account_opened_event() {
    let open_bank_account = BankAccountCommand::open_acc(100, 20);
    let expected = Ok(vec![BankAccountEvent::opened(100, 20)]);

    let result = BankAccountAggregate::new().execute(open_bank_account);

    assert_eq!(expected, result);
}

#[test]
fn depositing_money_emits_credited_event() {
    let initial_events = vec![BankAccountEvent::opened(100, 20)];
    let deposit = BankAccountCommand::deposit(100, 49);
    let expected = Ok(vec![BankAccountEvent::credited(100, 49)]);

    let result = aggregate_from(initial_events).execute(deposit);

    assert_eq!(expected, result);
}

#[test]
fn withdrawing_money_emits_debited_event() {
    let initial_events = vec![
        BankAccountEvent::opened(100, 20),
        BankAccountEvent::credited(100, 49),
    ];
    let withdraw = BankAccountCommand::withdraw(100, 9);
    let expected = Ok(vec![BankAccountEvent::debited(100, 9)]);

    let result = aggregate_from(initial_events).execute(withdraw);

    assert_eq!(expected, result);
}

#[test]
fn withdrawing_too_much_money_emits_withdrawal_refused_event() {
    let initial_events = vec![
        BankAccountEvent::opened(100, 20),
        BankAccountEvent::credited(100, 49),
    ];
    let withdraw = BankAccountCommand::withdraw(100, 90);
    let expected = Ok(vec![BankAccountEvent::not_enough_funds(100, 90, 49)]);

    let result = aggregate_from(initial_events).execute(withdraw);

    assert_eq!(expected, result);
}

#[test]
fn withdrawing_exact_balance_is_debited() {
    assert_command(
        vec![BankAccountEvent::opened(1, 2), BankAccountEvent::credited(1, 49)],
        WithdrawMoney::new(1, 49),
        Ok(vec![BankAccountEvent::debited(1, 49)]),
    );
}

#[test]
fn commands_on_missing_account_are_rejected() {
    assert_command(vec![], DepositMoney::new(1, 5), Err(CommandError::NotOpened));
    assert_command(vec![], WithdrawMoney::new(1, 5), Err(CommandError::NotOpened));
    assert_command(vec![], CloseBankAccount::new(1), Err(CommandError::NotOpened));
}

#[test]
fn commands_on_closed_account_are_rejected() {
    let closed = vec![BankAccountEvent::opened(1, 2), BankAccountEvent::closed(1)];
    assert_command(closed.clone(), DepositMoney::new(1, 5), Err(CommandError::NotOpened));
    assert_command(closed.clone(), WithdrawMoney::new(1, 5), Err(CommandError::NotOpened));
    assert_command(closed.clone(), CloseBankAccount::new(1), Err(CommandError::NotOpened));
    assert_command(closed, OpenBankAccount::new(1, 2), Err(CommandError::AlreadyCreated));
}

#[test]
fn execute_leaves_aggregate_unchanged() {
    let agg = aggregate_from(vec![BankAccountEvent::opened(1, 2)]);
    let before = agg.clone();
    let _ = agg.execute(BankAccountCommand::deposit(1, 5));
    assert_eq!(before, agg);
}

#[test]
fn aggregate_handle_records_produced_events() {
    let mut agg = aggregate_from(vec![BankAccountEvent::opened(1, 2)]);
    let produced = agg.handle(DepositMoney::new(1, 30)).unwrap();
    assert_eq!(vec![BankAccountEvent::credited(1, 30)], produced);
    assert_eq!(produced, agg.get_new_events());

    let refused = agg.handle(OpenBankAccount::new(1, 2));
    assert_eq!(Err(BankAccountError::Command(CommandError::AlreadyCreated)), refused);
    assert_eq!(vec![BankAccountEvent::credited(1, 30)], agg.get_new_events());
}

#[test]
fn aggregate_handle_refuses_balance_overflow() {
    let mut agg = aggregate_from(vec![
        BankAccountEvent::opened(1, 2),
        BankAccountEvent::credited(1, u64::MAX),
    ]);
    let before = agg.clone();
    assert_eq!(Err(BankAccountError::CantApplyEvent), agg.handle(DepositMoney::new(1, 1)));
    assert_eq!(before, agg);
}

#[test]
fn symbolic_names_are_stable() {
    assert_eq!("opened", BankAccountEvent::opened(1, 2).event_type());
    assert_eq!("credited", BankAccountEvent::credited(1, 2).event_type());
    assert_eq!("debited", BankAccountEvent::debited(1, 2).event_type());
    assert_eq!("not_enough_funds", BankAccountEvent::not_enough_funds(1, 2, 1).event_type());
    assert_eq!("closed", BankAccountEvent::closed(1).event_type());
    assert_eq!(
        "closing_failed_due_to_funds_available",
        BankAccountEvent::closing_failed_due_to_funds_available(1, 2).event_type()
    );
    assert_eq!("open_bank_account", BankAccountCommand::open_acc(1, 2).command_type());
    assert_eq!("deposit_money", BankAccountCommand::deposit(1, 2).command_type());
    assert_eq!("withdraw_money", BankAccountCommand::withdraw(1, 2).command_type());
    assert_eq!("close_bank_account", BankAccountCommand::close(1).command_type());
}

#[test]
fn error_descriptions() {
    assert_eq!(
        "attempt to execute command on account that is not opened",
        CommandError::NotOpened.description()
    );
    assert_eq!("attempt to create when already created", CommandError::AlreadyCreated.description());
    assert_eq!("attempt to execute event before creation", EventError::NotInitialized.description());
    assert_eq!("attempt to open when already opened", EventError::AlreadyOpened.description());
    assert_eq!("attempt to close when not opened", EventError::NotOpened.description());
}

#[test]
fn aggregate_ids() {
    assert_eq!(9, BankAccountEvent::not_enough_funds(9, 1, 0).get_aggregate_id());
    assert_eq!(4, BankAccountCommand::close(4).get_aggregate_id());
    assert_eq!(5, WithdrawMoney::new(5, 1).get_aggregate_id());
}
