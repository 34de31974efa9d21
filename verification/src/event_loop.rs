//! The event loop: a single control point that interleaves two independent
//! event sources — the update channel fed by the background sync process and
//! the operator's command lines — without losing updates, corrupting the
//! durable store, or blocking one source on the other.
//!
//! The loop is a state machine. `step` consumes exactly one event, mutates
//! the session, and returns the one external `Action` the caller must
//! perform before handing over the next event. The caller owns the real
//! I/O: it suspends until one source is ready, performs the returned action
//! (persist, print, request shutdown), and feeds the next event in.

use vstd::prelude::*;
use crate::command::Command;
use crate::command::parse;
use crate::command::parse_spec;
use crate::storage::DurableStore;
use crate::wallet::Update;
use crate::wallet::WalletState;

verus! {

/// One event, from whichever source became ready first.
#[derive(Debug)]
pub enum Event {
    /// The sync process finished a polling cycle; `None` means the cycle
    /// yielded no update.
    SyncUpdate(Option<Update>),
    /// The operator's input yielded a line; `None` means the input stream
    /// is closed.
    InputLine(Option<String>),
}

/// The one external action the caller must perform after a step, before the
/// next event is handed in.
#[derive(Clone, Copy, PartialEq, Eq, Structural, Debug)]
pub enum Action {
    /// Nothing to do; wait for the next event.
    Continue,
    /// A mutation was applied: make the new wallet state durable now.
    PersistState,
    /// An address at the given derivation index was revealed: make the new
    /// wallet state durable first, then report the address to the operator.
    PersistAndShowAddress(u32),
    /// Report this balance, in satoshis, to the operator. Read-only.
    ShowBalance(u64),
    /// Send the one-shot shutdown signal to the sync process, await its
    /// acknowledgement under a deadline, and exit the loop.
    RequestShutdown,
}

/// Whether the loop keeps handling events.
#[derive(Clone, Copy, PartialEq, Eq, Structural, Debug)]
pub enum Phase {
    Running,
    ShuttingDown,
}

/// How the sync process answered the shutdown signal, as handed back by the
/// caller once the acknowledgement wait is over.
#[derive(Clone, Copy, PartialEq, Eq, Structural, Debug)]
pub enum SyncAck {
    /// The sync process acknowledged the stop in time.
    Acknowledged,
    /// The sync process reported an error instead of stopping cleanly.
    Failed,
    /// The acknowledgement deadline passed with no answer.
    TimedOut,
}

/// How the loop exits. Only storage and shutdown-acknowledgement failures
/// are errors; every variant is a termination.
#[derive(Clone, Copy, PartialEq, Eq, Structural, Debug)]
pub enum LoopExit {
    /// Orderly shutdown, acknowledged by the sync process.
    Clean,
    /// The loop exits although the sync process failed to stop cleanly.
    ShutdownFailed,
    /// The loop exits although the acknowledgement deadline passed.
    ShutdownTimedOut,
}

/// The whole state the event loop owns: the in-memory wallet, the durable
/// store it must keep in step, and whether the loop is still running.
#[derive(Clone, Copy, PartialEq, Eq, Structural, Debug)]
pub struct Session {
    pub wallet: WalletState,
    pub store: DurableStore,
    pub phase: Phase,
}

/// The session and the action that one step of the loop produces from the
/// given session and event:
///
/// - an update is applied to the wallet and the result flushed at once;
///   an empty polling cycle changes nothing;
/// - `address` reveals the next receive address and flushes before the
///   address may be reported; `balance` reads the balance and changes
///   nothing; `shutdown` ends the loop; any other line changes nothing;
/// - a closed input stream is an implicit shutdown request.
pub open spec fn step_spec(s: Session, e: Event) -> (Session, Action) {
    match e {
        Event::SyncUpdate(u) => match u {
            Some(u) => {
                let w = s.wallet.apply_spec(u);
                (
                    Session { wallet: w, store: s.store.flush_spec(w), phase: s.phase },
                    Action::PersistState,
                )
            },
            None => (s, Action::Continue),
        },
        Event::InputLine(l) => match l {
            Some(line) => match parse_spec(line@) {
                Command::ShowReceiveAddress => {
                    let w = s.wallet.reveal_address_spec();
                    (
                        Session { wallet: w, store: s.store.flush_spec(w), phase: s.phase },
                        Action::PersistAndShowAddress(s.wallet.next_external_index),
                    )
                },
                Command::ShowBalance => (s, Action::ShowBalance(s.wallet.balance_sat)),
                Command::Shutdown => (
                    Session { wallet: s.wallet, store: s.store, phase: Phase::ShuttingDown },
                    Action::RequestShutdown,
                ),
                Command::Unrecognized => (s, Action::Continue),
            },
            None => (
                Session { wallet: s.wallet, store: s.store, phase: Phase::ShuttingDown },
                Action::RequestShutdown,
            ),
        },
    }
}

/// The session and the actions produced by handling the given events in
/// order, stopping as soon as the loop leaves `Running`.
pub open spec fn run_spec(s: Session, events: Seq<Event>) -> (Session, Seq<Action>)
    decreases events.len(),
{
    if events.len() == 0 || s.phase != Phase::Running {
        (s, Seq::<Action>::empty())
    } else {
        let first = step_spec(s, events[0]);
        let rest = run_spec(first.0, events.drop_first());
        (rest.0, seq![first.1] + rest.1)
    }
}

impl Session {
    /// At every quiescent point the durable store holds exactly the current
    /// wallet state: no mutation is left unflushed.
    pub open spec fn wf(self) -> bool {
        self.store.persisted == self.wallet
    }

    /// Start a session from the wallet state loaded from durable storage or
    /// freshly initialized and persisted there.
    pub fn new(wallet: WalletState) -> (s: Session)
        ensures
            s == (Session {
                wallet,
                store: (DurableStore { persisted: wallet }),
                phase: Phase::Running,
            }),
            s.wf(),
    {
        Session { wallet, store: DurableStore::new(wallet), phase: Phase::Running }
    }

    /// Handle one event to completion: mutate the session as `step_spec`
    /// says and return the one action the caller must perform before the
    /// next event. A well-formed session stays well formed: any mutation is
    /// flushed within the same step.
    pub fn step(&mut self, e: &Event) -> (a: Action)
        ensures
            *final(self) == step_spec(*old(self), *e).0,
            a == step_spec(*old(self), *e).1,
            old(self).wf() ==> final(self).wf(),
            final(self).phase == (if a == Action::RequestShutdown {
                Phase::ShuttingDown
            } else {
                old(self).phase
            }),
    {
        match e {
            Event::SyncUpdate(u) => match u {
                Some(u) => {
                    self.wallet.apply(*u);
                    let w = self.wallet;
                    self.store.flush(&w);
                    Action::PersistState
                },
                None => Action::Continue,
            },
            Event::InputLine(l) => match l {
                Some(line) => match parse(line.as_str()) {
                    Command::ShowReceiveAddress => {
                        let idx = self.wallet.reveal_next_address();
                        let w = self.wallet;
                        self.store.flush(&w);
                        Action::PersistAndShowAddress(idx)
                    },
                    Command::ShowBalance => Action::ShowBalance(self.wallet.balance()),
                    Command::Shutdown => {
                        self.phase = Phase::ShuttingDown;
                        Action::RequestShutdown
                    },
                    Command::Unrecognized => Action::Continue,
                },
                None => {
                    self.phase = Phase::ShuttingDown;
                    Action::RequestShutdown
                },
            },
        }
    }
}

/// Handle a whole sequence of events in order, collecting the action each
/// step produced, and stopping as soon as a shutdown request ends the loop.
/// Every finite event sequence terminates the loop.
pub fn run(session: Session, events: Vec<Event>) -> (r: (Session, Vec<Action>))
    ensures
        r.0 == run_spec(session, events@).0,
        r.1@ == run_spec(session, events@).1,
        session.wf() ==> r.0.wf(),
{
    let mut s = session;
    let mut actions: Vec<Action> = Vec::new();
    let mut i: usize = 0;
    proof {
        assert(events@.skip(0) =~= events@);
        assert(actions@ + run_spec(s, events@).1 =~= run_spec(s, events@).1);
    }
    while i < events.len() && matches!(s.phase, Phase::Running)
        invariant
            i <= events@.len(),
            run_spec(session, events@).0 == run_spec(s, events@.skip(i as int)).0,
            run_spec(session, events@).1 == actions@ + run_spec(s, events@.skip(i as int)).1,
            session.wf() ==> s.wf(),
        decreases events@.len() - i,
    {
        proof {
            assert(events@.skip(i as int)[0] == events@[i as int]);
            assert(events@.skip(i as int).drop_first() =~= events@.skip(i as int + 1));
        }
        let a = s.step(&events[i]);
        actions.push(a);
        i = i + 1;
    }
    proof {
        assert(run_spec(s, events@.skip(i as int)) == (s, Seq::<Action>::empty()));
        assert(actions@ + Seq::<Action>::empty() =~= actions@);
    }
    (s, actions)
}

/// Decide how the loop exits once the shutdown signal has been sent and the
/// bounded wait for acknowledgement is over: the loop terminates for every
/// outcome, and only a clean acknowledgement exits without error.
pub fn finish_shutdown(ack: SyncAck) -> (r: LoopExit)
    ensures
        r == (match ack {
            SyncAck::Acknowledged => LoopExit::Clean,
            SyncAck::Failed => LoopExit::ShutdownFailed,
            SyncAck::TimedOut => LoopExit::ShutdownTimedOut,
        }),
        ack == SyncAck::Acknowledged <==> r == LoopExit::Clean,
{
    match ack {
        SyncAck::Acknowledged => LoopExit::Clean,
        SyncAck::Failed => LoopExit::ShutdownFailed,
        SyncAck::TimedOut => LoopExit::ShutdownTimedOut,
    }
}

} // verus!
