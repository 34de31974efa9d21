use wallet_loop::command::Command;
use wallet_loop::command::parse;
use wallet_loop::event_loop::Action;
use wallet_loop::event_loop::Event;
use wallet_loop::event_loop::LoopExit;
use wallet_loop::event_loop::Phase;
use wallet_loop::event_loop::Session;
use wallet_loop::event_loop::SyncAck;
use wallet_loop::event_loop::finish_shutdown;
use wallet_loop::event_loop::run;
use wallet_loop::storage::DurableStore;
use wallet_loop::wallet::MAX_DERIVATION_INDEX;
use wallet_loop::wallet::Update;
use wallet_loop::wallet::WalletState;

fn fresh_session() -> Session {
    Session::new(WalletState::new(0, 0, 0))
}

#[test]
fn parse_recognizes_each_command() {
    assert_eq!(parse("address"), Command::ShowReceiveAddress);
    assert_eq!(parse("balance"), Command::ShowBalance);
    assert_eq!(parse("shutdown"), Command::Shutdown);
}

#[test]
fn parse_rejects_everything_else() {
    assert_eq!(parse("foo"), Command::Unrecognized);
    assert_eq!(parse(""), Command::Unrecognized);
    assert_eq!(parse("Address"), Command::Unrecognized);
    assert_eq!(parse(" balance"), Command::Unrecognized);
    assert_eq!(parse("shutdown "), Command::Unrecognized);
    assert_eq!(parse("balance balance"), Command::Unrecognized);
}

#[test]
fn updates_applied_in_order_and_none_dropped() {
    let s = fresh_session();
    let u1 = Update { balance_sat: 1_000, tip_height: 100 };
    let u2 = Update { balance_sat: 2_500, tip_height: 101 };
    let u3 = Update { balance_sat: 900, tip_height: 102 };
    let events = vec![
        Event::SyncUpdate(Some(u1)),
        Event::SyncUpdate(Some(u2)),
        Event::SyncUpdate(Some(u3)),
    ];
    let (after, actions) = run(s, events);
    // The final wallet is the last update applied, in order.
    assert_eq!(after.wallet.balance_sat, 900);
    assert_eq!(after.wallet.tip_height, 102);
    // Each delivered update was flushed, none dropped.
    assert_eq!(
        actions,
        vec![Action::PersistState, Action::PersistState, Action::PersistState]
    );
    assert_eq!(after.phase, Phase::Running);
}

#[test]
fn empty_polling_cycle_changes_nothing() {
    let mut s = fresh_session();
    let before = s;
    let a = s.step(&Event::SyncUpdate(None));
    assert_eq!(a, Action::Continue);
    assert_eq!(s, before);
}

#[test]
fn every_mutation_is_flushed_before_the_next_event() {
    let mut s = fresh_session();
    let a = s.step(&Event::SyncUpdate(Some(Update { balance_sat: 42, tip_height: 7 })));
    assert_eq!(a, Action::PersistState);
    assert_eq!(s.store.persisted, s.wallet);
    let a = s.step(&Event::InputLine(Some(String::from("address"))));
    assert_eq!(a, Action::PersistAndShowAddress(0));
    assert_eq!(s.store.persisted, s.wallet);
    assert_eq!(s.wallet.next_external_index, 1);
}

#[test]
fn flush_count_equals_mutation_count() {
    let s = fresh_session();
    let events = vec![
        Event::SyncUpdate(Some(Update { balance_sat: 3, tip_height: 1 })),
        Event::SyncUpdate(None),
        Event::InputLine(Some(String::from("balance"))),
        Event::InputLine(Some(String::from("address"))),
        Event::InputLine(Some(String::from("foo"))),
        Event::SyncUpdate(Some(Update { balance_sat: 4, tip_height: 2 })),
    ];
    // Three mutations: two applied updates and one address reveal.
    let (after, actions) = run(s, events);
    let flushes = actions
        .iter()
        .filter(|a| {
            matches!(
                a,
                Action::PersistState | Action::PersistAndShowAddress(_)
            )
        })
        .count();
    assert_eq!(flushes, 3);
    assert_eq!(after.store.persisted, after.wallet);
}

#[test]
fn flush_twice_is_idempotent() {
    let w = WalletState::new(5, 2, 9);
    let mut store = DurableStore::new(WalletState::new(0, 0, 0));
    store.flush(&w);
    let once = store;
    store.flush(&w);
    assert_eq!(store, once);
    assert_eq!(store.persisted, w);
}

#[test]
fn unrecognized_command_leaves_state_identical() {
    let mut s = fresh_session();
    s.step(&Event::SyncUpdate(Some(Update { balance_sat: 10, tip_height: 1 })));
    let before = s;
    let a = s.step(&Event::InputLine(Some(String::from("foo"))));
    assert_eq!(a, Action::Continue);
    // Wallet and persisted storage are identical to before the command.
    assert_eq!(s, before);
}

#[test]
fn scenario_balance_address_shutdown() {
    let s = fresh_session();
    let events = vec![
        Event::InputLine(Some(String::from("balance"))),
        Event::InputLine(Some(String::from("address"))),
        Event::InputLine(Some(String::from("shutdown"))),
    ];
    let (after, actions) = run(s, events);
    // A balance amount, a newly revealed address, then clean termination
    // with exactly one shutdown request.
    assert_eq!(
        actions,
        vec![
            Action::ShowBalance(0),
            Action::PersistAndShowAddress(0),
            Action::RequestShutdown,
        ]
    );
    assert_eq!(after.phase, Phase::ShuttingDown);
    assert_eq!(
        actions
            .iter()
            .filter(|a| **a == Action::RequestShutdown)
            .count(),
        1
    );
}

#[test]
fn revealed_addresses_are_distinct() {
    let mut s = fresh_session();
    let a1 = s.step(&Event::InputLine(Some(String::from("address"))));
    let a2 = s.step(&Event::InputLine(Some(String::from("address"))));
    let a3 = s.step(&Event::InputLine(Some(String::from("address"))));
    assert_eq!(a1, Action::PersistAndShowAddress(0));
    assert_eq!(a2, Action::PersistAndShowAddress(1));
    assert_eq!(a3, Action::PersistAndShowAddress(2));
}

#[test]
fn address_revelation_stops_at_the_last_derivable_index() {
    let mut s = Session::new(WalletState::new(0, MAX_DERIVATION_INDEX, 0));
    let a = s.step(&Event::InputLine(Some(String::from("address"))));
    assert_eq!(a, Action::PersistAndShowAddress(MAX_DERIVATION_INDEX));
    assert_eq!(s.wallet.next_external_index, MAX_DERIVATION_INDEX);
}

#[test]
fn balance_is_pre_or_post_update_never_in_between() {
    let u = Update { balance_sat: 7_777, tip_height: 50 };

    // The operator's query is ready first: the pre-update balance.
    let s = fresh_session();
    let events = vec![
        Event::InputLine(Some(String::from("balance"))),
        Event::SyncUpdate(Some(u)),
    ];
    let (_, actions) = run(s, events);
    assert_eq!(actions[0], Action::ShowBalance(0));

    // The update is applied first: the post-update balance.
    let s = fresh_session();
    let events = vec![
        Event::SyncUpdate(Some(u)),
        Event::InputLine(Some(String::from("balance"))),
    ];
    let (_, actions) = run(s, events);
    assert_eq!(actions[1], Action::ShowBalance(7_777));
}

#[test]
fn closed_input_is_an_implicit_shutdown() {
    let mut s = fresh_session();
    let a = s.step(&Event::InputLine(None));
    assert_eq!(a, Action::RequestShutdown);
    assert_eq!(s.phase, Phase::ShuttingDown);
}

#[test]
fn loop_handles_nothing_after_shutdown() {
    let s = fresh_session();
    let events = vec![
        Event::InputLine(None),
        Event::InputLine(Some(String::from("balance"))),
        Event::SyncUpdate(Some(Update { balance_sat: 1, tip_height: 1 })),
    ];
    let (after, actions) = run(s, events);
    // The loop terminates cleanly instead of spinning on closed input.
    assert_eq!(actions, vec![Action::RequestShutdown]);
    assert_eq!(after.phase, Phase::ShuttingDown);
}

#[test]
fn shutdown_exits_for_every_acknowledgement_outcome() {
    assert_eq!(finish_shutdown(SyncAck::Acknowledged), LoopExit::Clean);
    assert_eq!(finish_shutdown(SyncAck::Failed), LoopExit::ShutdownFailed);
    assert_eq!(finish_shutdown(SyncAck::TimedOut), LoopExit::ShutdownTimedOut);
}
