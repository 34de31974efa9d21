//! The laws the event loop obeys, each proved once and for all inputs.

use vstd::prelude::*;
use crate::command::Command;
use crate::command::parse_spec;
use crate::event_loop::Action;
use crate::event_loop::Event;
use crate::event_loop::Phase;
use crate::event_loop::Session;
use crate::event_loop::run_spec;
use crate::event_loop::step_spec;
use crate::wallet::Update;

verus! {

/// The events of a quiet stretch in which the sync process delivers the
/// given updates, one per polling cycle, and the operator types nothing.
pub open spec fn update_events(updates: Seq<Update>) -> Seq<Event> {
    updates.map_values(|u: Update| Event::SyncUpdate(Some(u)))
}

/// Law: updates delivered before any command are neither dropped nor
/// reordered. Running the loop over them leaves exactly the wallet obtained
/// by applying them to the starting wallet directly, in the order the sync
/// process emitted them.
pub proof fn lemma_updates_applied_in_order(s: Session, updates: Seq<Update>)
    requires
        s.phase == Phase::Running,
    ensures
        run_spec(s, update_events(updates)).0.wallet == s.wallet.apply_all_spec(updates),
    decreases updates.len(),
{
    let events = update_events(updates);
    if updates.len() > 0 {
        let first = step_spec(s, events[0]);
        assert(events[0] == Event::SyncUpdate(Some(updates[0])));
        assert(first.0.wallet == s.wallet.apply_spec(updates[0]));
        assert(first.0.phase == Phase::Running);
        assert(events.drop_first() =~= update_events(updates.drop_first()));
        lemma_updates_applied_in_order(first.0, updates.drop_first());
    }
}

/// Whether an action carries a durable flush.
pub open spec fn is_flush(a: Action) -> bool {
    match a {
        Action::PersistState => true,
        Action::PersistAndShowAddress(_) => true,
        _ => false,
    }
}

/// Whether handling this event mutates the wallet: a delivered update is
/// applied, and an `address` command reveals a new receive address.
pub open spec fn is_mutation(e: Event) -> bool {
    match e {
        Event::SyncUpdate(u) => u is Some,
        Event::InputLine(l) => match l {
            Some(line) => parse_spec(line@) == Command::ShowReceiveAddress,
            None => false,
        },
    }
}

/// Whether this event ends the loop: an explicit `shutdown` command, or
/// the operator closing the input stream.
pub open spec fn is_shutdown_request(e: Event) -> bool {
    match e {
        Event::SyncUpdate(_) => false,
        Event::InputLine(l) => match l {
            Some(line) => parse_spec(line@) == Command::Shutdown,
            None => true,
        },
    }
}

/// Law: every successful mutation — an update apply or an address reveal —
/// is followed by exactly one flush before the next event is processed,
/// and no flush happens without one. A step flushes exactly when its event
/// mutates, the durable store already holds the new wallet state when the
/// step returns, and a step without a flush leaves the store untouched.
pub proof fn lemma_flush_follows_mutation(s: Session, e: Event)
    requires
        s.wf(),
    ensures
        step_spec(s, e).0.wf(),
        is_flush(step_spec(s, e).1) == is_mutation(e),
        step_spec(s, e).0.wallet != s.wallet ==> is_mutation(e),
        !is_flush(step_spec(s, e).1) ==> step_spec(s, e).0.store == s.store,
{
}

/// How many of the actions carry a durable flush.
pub open spec fn flush_count(actions: Seq<Action>) -> nat
    decreases actions.len(),
{
    if actions.len() == 0 {
        0
    } else {
        (if is_flush(actions[0]) {
            1nat
        } else {
            0nat
        }) + flush_count(actions.drop_first())
    }
}

/// How many of the events mutate the wallet.
pub open spec fn mutation_count(events: Seq<Event>) -> nat
    decreases events.len(),
{
    if events.len() == 0 {
        0
    } else {
        (if is_mutation(events[0]) {
            1nat
        } else {
            0nat
        }) + mutation_count(events.drop_first())
    }
}

/// Law: flush count equals mutation count at any quiescent point — over
/// any stretch of events in which the loop keeps running, the actions
/// carry exactly one flush per mutation.
pub proof fn lemma_flush_count_equals_mutation_count(s: Session, events: Seq<Event>)
    requires
        s.phase == Phase::Running,
        forall|i: int| 0 <= i < events.len() ==> !is_shutdown_request(#[trigger] events[i]),
    ensures
        flush_count(run_spec(s, events).1) == mutation_count(events),
    decreases events.len(),
{
    if events.len() > 0 {
        let first = step_spec(s, events[0]);
        let rest = run_spec(first.0, events.drop_first());
        let acts = seq![first.1] + rest.1;
        assert(!is_shutdown_request(events[0]));
        assert(first.0.phase == Phase::Running);
        assert(run_spec(s, events).1 == acts);
        assert(acts[0] == first.1);
        assert(acts.drop_first() =~= rest.1);
        assert(is_flush(first.1) == is_mutation(events[0]));
        assert(forall|i: int|
            0 <= i < events.drop_first().len() ==> !is_shutdown_request(
                #[trigger] events.drop_first()[i],
            ));
        lemma_flush_count_equals_mutation_count(first.0, events.drop_first());
    }
}

/// Law: the flush discipline holds at every quiescent point of a run — a
/// well-formed session is well formed again after any sequence of events,
/// so the durable store never lags behind a mutation.
pub proof fn lemma_run_preserves_wf(s: Session, events: Seq<Event>)
    requires
        s.wf(),
    ensures
        run_spec(s, events).0.wf(),
    decreases events.len(),
{
    if events.len() > 0 && s.phase == Phase::Running {
        let first = step_spec(s, events[0]);
        lemma_flush_follows_mutation(s, events[0]);
        lemma_run_preserves_wf(first.0, events.drop_first());
    }
}

/// Law: an unrecognized command line leaves the wallet and the durable
/// store exactly as they were; the loop just continues.
pub proof fn lemma_unrecognized_leaves_state(s: Session, line: String)
    requires
        parse_spec(line@) == Command::Unrecognized,
    ensures
        step_spec(s, Event::InputLine(Some(line))).0 == s,
        step_spec(s, Event::InputLine(Some(line))).1 == Action::Continue,
{
}

/// Law: a balance report is atomic with respect to updates. It reports
/// exactly the balance of the wallet at the moment the query is handled:
/// the pre-update balance when the query is ready first, the post-update
/// balance when the update was applied first — never a partially applied
/// intermediate value.
pub proof fn lemma_balance_report_atomic(s: Session, u: Update, line: String)
    requires
        parse_spec(line@) == Command::ShowBalance,
    ensures
        step_spec(s, Event::InputLine(Some(line))).1 == Action::ShowBalance(
            s.wallet.balance_sat,
        ),
        step_spec(step_spec(s, Event::SyncUpdate(Some(u))).0, Event::InputLine(Some(line))).1
            == Action::ShowBalance(s.wallet.apply_spec(u).balance_sat),
{
}

/// Law: a closed input stream is an implicit shutdown request. The step
/// requests shutdown and leaves `Running`, and a loop that has left
/// `Running` handles no further events — it never spins on closed input.
pub proof fn lemma_closed_input_terminates(s: Session, events: Seq<Event>)
    ensures
        step_spec(s, Event::InputLine(None)).1 == Action::RequestShutdown,
        step_spec(s, Event::InputLine(None)).0.phase == Phase::ShuttingDown,
        s.phase == Phase::ShuttingDown ==> run_spec(s, events) == (s, Seq::<Action>::empty()),
{
}

/// How many of the actions request a shutdown of the sync process.
pub open spec fn shutdown_count(actions: Seq<Action>) -> nat
    decreases actions.len(),
{
    if actions.len() == 0 {
        0
    } else {
        (if actions[0] == Action::RequestShutdown {
            1nat
        } else {
            0nat
        }) + shutdown_count(actions.drop_first())
    }
}

/// Law: a run sends the sync process at most one shutdown request, and
/// sends exactly one when and only when it ends shutting down.
pub proof fn lemma_one_shutdown_request(s: Session, events: Seq<Event>)
    requires
        s.phase == Phase::Running,
    ensures
        shutdown_count(run_spec(s, events).1) == (if run_spec(s, events).0.phase
            == Phase::ShuttingDown {
            1nat
        } else {
            0nat
        }),
    decreases events.len(),
{
    if events.len() > 0 {
        let first = step_spec(s, events[0]);
        let rest = run_spec(first.0, events.drop_first());
        let acts = seq![first.1] + rest.1;
        assert(run_spec(s, events).1 == acts);
        assert(run_spec(s, events).0 == rest.0);
        assert(acts[0] == first.1);
        assert(acts.drop_first() =~= rest.1);
        assert(shutdown_count(acts) == (if first.1 == Action::RequestShutdown {
            1nat
        } else {
            0nat
        }) + shutdown_count(rest.1));
        if first.0.phase == Phase::ShuttingDown {
            assert(first.1 == Action::RequestShutdown);
            assert(rest.1 == Seq::<Action>::empty());
            assert(shutdown_count(rest.1) == 0);
            assert(rest.0 == first.0);
        } else {
            assert(first.1 != Action::RequestShutdown);
            lemma_one_shutdown_request(first.0, events.drop_first());
        }
    }
}

} // verus!
