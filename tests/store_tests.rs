use eventsourcing::aggregate::BankAccountAggregate;
use eventsourcing::commands::{BankAccountCommand, DepositMoney, OpenBankAccount, WithdrawMoney};
use eventsourcing::errors::{BankAccountError, CommandError, EventError};
use eventsourcing::event_store::{BankAccountEventStore, InMemoryBankAccountEventStore};
use eventsourcing::events::BankAccountEvent;
use eventsourcing::repository::{
    BankAccountRepository, DepositHandler, OpenBankAccountHandler, WithdrawHandler,
};

fn repository_with(
    initial_events: Vec<BankAccountEvent>,
) -> BankAccountRepository<InMemoryBankAccountEventStore> {
    let mut event_store = InMemoryBankAccountEventStore::new();
    match event_store.save_events(initial_events) {
        Ok(()) => {}
        Err(_) => panic!("Setting up initial events failed"),
    }
    BankAccountRepository::new(event_store)
}

#[test]
fn check_get_events_returns_only_events_with_expected_id() {
    let mut event_store = InMemoryBankAccountEventStore::new();

    let events = vec![
        BankAccountEvent::opened(100, 20),
        BankAccountEvent::opened(101, 20),
    ];
    let expected = vec![BankAccountEvent::opened(100, 20)];

    match event_store.save_events(events) {
        Ok(_) => println!("Events saved"),
        Err(_) => panic!("Cant save events"),
    }

    let result = event_store.get_events(100).unwrap();

    assert_eq!(expected, result);
}

#[test]
fn get_events_keeps_save_order_per_identity() {
    let mut event_store = InMemoryBankAccountEventStore::new();
    event_store
        .save_events(vec![
            BankAccountEvent::opened(100, 20),
            BankAccountEvent::opened(101, 21),
            BankAccountEvent::credited(101, 5),
        ])
        .unwrap();
    event_store
        .save_events(vec![BankAccountEvent::credited(100, 7), BankAccountEvent::debited(100, 2)])
        .unwrap();

    assert_eq!(
        vec![
            BankAccountEvent::opened(100, 20),
            BankAccountEvent::credited(100, 7),
            BankAccountEvent::debited(100, 2),
        ],
        event_store.get_events(100).unwrap()
    );
    assert_eq!(
        vec![BankAccountEvent::opened(101, 21), BankAccountEvent::credited(101, 5)],
        event_store.get_events(101).unwrap()
    );
    assert_eq!(Vec::<BankAccountEvent>::new(), event_store.get_events(102).unwrap());
}

#[test]
fn open_bank_account_open_bank_account_handler() {
    let repo = BankAccountRepository::new_in_memory();
    let mut handler = OpenBankAccountHandler::new(repo);

    let result = handler.handle(OpenBankAccount::new(100, 20));

    assert_eq!(Ok(()), result);
    assert_eq!(
        vec![BankAccountEvent::opened(100, 20)],
        handler.repository.event_store.get_events(100).unwrap()
    );
}

#[test]
fn deposit_deposit_handler() {
    let repo = repository_with(vec![BankAccountEvent::opened(100, 20)]);
    let mut handler = DepositHandler::new(repo);

    let result = handler.handle(DepositMoney::new(100, 49));

    assert_eq!(Ok(()), result);
    assert_eq!(
        vec![BankAccountEvent::opened(100, 20), BankAccountEvent::credited(100, 49)],
        handler.repository.event_store.get_events(100).unwrap()
    );
}

#[test]
fn withdraw_withdraw_handler() {
    let repo = repository_with(vec![
        BankAccountEvent::opened(100, 20),
        BankAccountEvent::credited(100, 49),
    ]);
    let mut handler = WithdrawHandler::new(repo);

    let result = handler.handle(WithdrawMoney::new(100, 7));

    assert_eq!(Ok(()), result);
    assert_eq!(
        vec![
            BankAccountEvent::opened(100, 20),
            BankAccountEvent::credited(100, 49),
            BankAccountEvent::debited(100, 7),
        ],
        handler.repository.event_store.get_events(100).unwrap()
    );
}

#[test]
fn withdraw_withdraw_refused_handler() {
    let repo = repository_with(vec![
        BankAccountEvent::opened(100, 20),
        BankAccountEvent::credited(100, 49),
    ]);
    let mut handler = WithdrawHandler::new(repo);

    let result = handler.handle(WithdrawMoney::new(100, 70));

    assert_eq!(Ok(()), result);
    assert_eq!(
        vec![
            BankAccountEvent::opened(100, 20),
            BankAccountEvent::credited(100, 49),
            BankAccountEvent::not_enough_funds(100, 70, 49),
        ],
        handler.repository.event_store.get_events(100).unwrap()
    );
}

#[test]
fn load_replays_history_with_nothing_pending() {
    let repo = repository_with(vec![
        BankAccountEvent::opened(100, 20),
        BankAccountEvent::opened(101, 21),
        BankAccountEvent::credited(100, 49),
    ]);

    let agg = repo.load(100).unwrap();

    assert_eq!(Vec::<BankAccountEvent>::new(), agg.get_new_events());
    if let BankAccountAggregate::Opened(state, _) = agg {
        assert_eq!(49, state.balance);
        assert_eq!(2, state.generation);
    } else {
        panic!("Aggregate not in Opened state");
    }
    assert_eq!(BankAccountAggregate::Uninitialized, repo.load(555).unwrap());
}

#[test]
fn load_surfaces_corrupt_history() {
    let repo = repository_with(vec![
        BankAccountEvent::credited(100, 49),
        BankAccountEvent::opened(100, 20),
    ]);
    assert_eq!(Err(BankAccountError::Event(EventError::NotInitialized)), repo.load(100));
}

#[test]
fn save_after_load_persists_only_new_events() {
    let mut repo = repository_with(vec![BankAccountEvent::opened(100, 20)]);
    let mut agg = repo.load(100).unwrap();
    agg.record(BankAccountEvent::credited(100, 5)).unwrap();

    repo.save(agg).unwrap();

    assert_eq!(
        vec![BankAccountEvent::opened(100, 20), BankAccountEvent::credited(100, 5)],
        repo.event_store.get_events(100).unwrap()
    );
}

#[test]
fn rejected_command_saves_nothing() {
    let mut repo = repository_with(vec![BankAccountEvent::opened(100, 20)]);

    let result = repo.handle(BankAccountCommand::open_acc(100, 20));

    assert_eq!(Err(BankAccountError::Command(CommandError::AlreadyCreated)), result);
    assert_eq!(
        vec![BankAccountEvent::opened(100, 20)],
        repo.event_store.get_events(100).unwrap()
    );
}

#[test]
fn open_deposit_withdraw_scenario() {
    let mut repo = BankAccountRepository::new_in_memory();

    let opened = repo.handle(BankAccountCommand::open_acc(100, 20)).unwrap();
    assert_eq!(vec![BankAccountEvent::opened(100, 20)], opened);
    match repo.load(100).unwrap() {
        BankAccountAggregate::Opened(state, _) => {
            assert_eq!(100, state.id);
            assert_eq!(0, state.balance);
        }
        _ => panic!("Aggregate not in Opened state"),
    }

    let deposited = repo.handle(BankAccountCommand::deposit(100, 49)).unwrap();
    assert_eq!(vec![BankAccountEvent::credited(100, 49)], deposited);
    match repo.load(100).unwrap() {
        BankAccountAggregate::Opened(state, _) => assert_eq!(49, state.balance),
        _ => panic!("Aggregate not in Opened state"),
    }

    let refused = repo.handle(BankAccountCommand::withdraw(100, 90)).unwrap();
    assert_eq!(vec![BankAccountEvent::not_enough_funds(100, 90, 49)], refused);
    match repo.load(100).unwrap() {
        BankAccountAggregate::Opened(state, _) => assert_eq!(49, state.balance),
        _ => panic!("Aggregate not in Opened state"),
    }
    assert_eq!(3, repo.event_store.get_events(100).unwrap().len());
}

#[test]
fn close_through_repository() {
    let mut repo = repository_with(vec![BankAccountEvent::opened(3, 4)]);
    assert_eq!(
        Ok(vec![BankAccountEvent::closed(3)]),
        repo.handle(BankAccountCommand::close(3))
    );
    assert!(matches!(repo.load(3).unwrap(), BankAccountAggregate::Closed(_, _)));
    assert_eq!(
        Err(BankAccountError::Command(CommandError::NotOpened)),
        repo.handle(BankAccountCommand::deposit(3, 1))
    );
}
