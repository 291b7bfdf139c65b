//! Trace model: how one ticker evolves over an interleaving of caller calls
//! and host-delivered firings, and the laws that hold of every such trace.
//!
//! Each [`Event`] bundles a caller call or a host turn with the outcome of
//! the schedule-once attempt it triggers, if any. The step functions are
//! built from the same transition spec functions that the executable cores'
//! contracts use, so the laws below speak about the verified cores.

use vstd::prelude::*;

use crate::{fire_runs, sched_next, start_next, start_verdict};
use crate::{State, TickerError, TickerView};

verus! {

/// One caller call or host turn, with the outcome (token or failure cause)
/// of the schedule-once attempt it triggers, if the state machine lets the
/// attempt happen at all.
pub enum Event {
    /// `start`: on `Stopped`, arm one schedule with this outcome.
    Start(Result<u64, u64>),
    /// `start_immediate`: on `Stopped`, run the task once synchronously,
    /// then rearm with this outcome.
    StartImmediate(Result<u64, u64>),
    /// `stop`: cancel the pending schedule, if any.
    Stop,
    /// The host delivers a firing: while `Started`, run the task, then
    /// rearm with this outcome; otherwise skip silently.
    Fire(Result<u64, u64>),
}

/// Effect of one schedule-once attempt on the model: success keeps the
/// state and stores the new token, failure latches the cause and leaves the
/// token slot as it was.
pub open spec fn sched_apply(m: TickerView, outcome: Result<u64, u64>) -> TickerView {
    TickerView {
        state: sched_next(m.state, outcome),
        token: match outcome {
            Ok(tok) => Some(tok),
            Err(_) => m.token,
        },
    }
}

/// Effect of one event on the model.
pub open spec fn step(m: TickerView, e: Event) -> TickerView {
    match e {
        Event::Start(outcome) | Event::StartImmediate(outcome) => if start_verdict(
            m.state,
        ) is Ok {
            sched_apply(TickerView { state: start_next(m.state), token: m.token }, outcome)
        } else {
            m
        },
        Event::Stop => if m.state is Started {
            TickerView { state: State::Stopped, token: None }
        } else {
            m
        },
        Event::Fire(outcome) => if fire_runs(m.state) {
            sched_apply(m, outcome)
        } else {
            m
        },
    }
}

/// Whether the event runs the user task when it happens in model state `m`.
pub open spec fn event_runs_task(m: TickerView, e: Event) -> bool {
    match e {
        Event::Start(_) => false,
        Event::StartImmediate(_) => start_verdict(m.state) is Ok,
        Event::Stop => false,
        Event::Fire(_) => fire_runs(m.state),
    }
}

/// The model after a whole trace of events.
pub open spec fn run_trace(m: TickerView, t: Seq<Event>) -> TickerView
    decreases t.len(),
{
    if t.len() == 0 {
        m
    } else {
        run_trace(step(m, t[0]), t.drop_first())
    }
}

/// How many times the user task runs over a trace starting in `m`.
pub open spec fn count_runs(m: TickerView, t: Seq<Event>) -> nat
    decreases t.len(),
{
    if t.len() == 0 {
        0
    } else {
        (if event_runs_task(m, t[0]) {
            1nat
        } else {
            0nat
        }) + count_runs(step(m, t[0]), t.drop_first())
    }
}

/// How many events of a trace are host turns that could run the task: the
/// delivered firings, and the synchronous first cycle of `start_immediate`.
pub open spec fn count_turns(t: Seq<Event>) -> nat
    decreases t.len(),
{
    if t.len() == 0 {
        0
    } else {
        (match t[0] {
            Event::StartImmediate(_) => 1nat,
            Event::Fire(_) => 1nat,
            _ => 0nat,
        }) + count_turns(t.drop_first())
    }
}

/// Idempotent stop: `stop` on a ticker that is `Stopped` or `Errored` is a
/// no-op and changes nothing.
pub proof fn lemma_stop_idempotent(m: TickerView)
    requires
        !(m.state is Started),
    ensures
        step(m, Event::Stop) == m,
{
}

/// Start rejects re-start: after a `start` whose arm succeeded, a second
/// `start` without an intervening `stop` is rejected with `AlreadyStarted`
/// and leaves the ticker `Started`, whatever outcome the second call could
/// have produced.
pub proof fn lemma_start_rejects_restart(
    m: TickerView,
    first: Result<u64, u64>,
    second: Result<u64, u64>,
)
    requires
        m.state is Stopped,
        first is Ok,
    ensures
        step(m, Event::Start(first)).state is Started,
        start_verdict(step(m, Event::Start(first)).state) == Err::<(), TickerError>(
            TickerError::AlreadyStarted,
        ),
        step(step(m, Event::Start(first)), Event::Start(second)) == step(m, Event::Start(first)),
{
}

/// Sequential firing: over any trace, the task runs at most once per host
/// turn (a delivered firing, or the synchronous first cycle of
/// `start_immediate`): no double-fire.
pub proof fn lemma_sequential_firing(m: TickerView, t: Seq<Event>)
    ensures
        count_runs(m, t) <= count_turns(t),
    decreases t.len(),
{
    if t.len() > 0 {
        lemma_sequential_firing(step(m, t[0]), t.drop_first());
    }
}

/// Sequential firing, normal path: while `Started`, every delivered firing
/// whose rearm succeeds runs the task exactly once and leaves the ticker
/// `Started` again — no skipped rearm.
pub proof fn lemma_fires_run_while_started(m: TickerView, t: Seq<Event>)
    requires
        m.state is Started,
        forall|i: int| 0 <= i < t.len() ==> (#[trigger] t[i]) matches Event::Fire(Ok(_)),
    ensures
        count_runs(m, t) == t.len(),
        run_trace(m, t).state is Started,
    decreases t.len(),
{
    if t.len() > 0 {
        assert(t[0] matches Event::Fire(Ok(_)));
        lemma_fires_run_while_started(step(m, t[0]), t.drop_first());
    }
}

/// A ticker that is not `Started` skips every host firing silently: the
/// task never runs and the model never changes.
pub proof fn lemma_fires_skip_unless_started(m: TickerView, t: Seq<Event>)
    requires
        !(m.state is Started),
        forall|i: int| 0 <= i < t.len() ==> t[i] is Fire,
    ensures
        count_runs(m, t) == 0,
        run_trace(m, t) == m,
    decreases t.len(),
{
    if t.len() > 0 {
        assert(t[0] is Fire);
        lemma_fires_skip_unless_started(m, t.drop_first());
    }
}

/// Cancellation on stop: starting a ticker and stopping it before any
/// firing leaves the task's side effect unobserved, however many firings
/// the host may still deliver afterwards.
pub proof fn lemma_cancellation_on_stop(
    m: TickerView,
    outcome: Result<u64, u64>,
    fires: Seq<Event>,
)
    requires
        m.state is Stopped,
        forall|i: int| 0 <= i < fires.len() ==> fires[i] is Fire,
    ensures
        count_runs(m, seq![Event::Start(outcome), Event::Stop] + fires) == 0,
        !(run_trace(m, seq![Event::Start(outcome), Event::Stop] + fires).state is Started),
{
    let t = seq![Event::Start(outcome), Event::Stop] + fires;
    let rest = seq![Event::Stop] + fires;
    let m1 = step(m, Event::Start(outcome));
    let m2 = step(m1, Event::Stop);
    assert(t[0] == Event::Start(outcome));
    assert(t.drop_first() =~= rest);
    assert(rest[0] == Event::Stop);
    assert(rest.drop_first() =~= fires);
    assert(count_runs(m, t) == count_runs(m1, rest));
    assert(count_runs(m1, rest) == count_runs(m2, fires));
    assert(run_trace(m, t) == run_trace(m1, rest));
    assert(run_trace(m1, rest) == run_trace(m2, fires));
    lemma_fires_skip_unless_started(m2, fires);
}

/// Error latch: when the first arm succeeds and the rearm at the first
/// firing fails, the ticker latches `Error(cause)`; a later `start`
/// re-reports exactly that cause and does not rearm (the refused start
/// ignores any outcome).
pub proof fn lemma_error_latch(m: TickerView, tok: u64, cause: u64, later: Result<u64, u64>)
    requires
        m.state is Stopped,
    ensures
        ({
            let started = step(m, Event::Start(Ok(tok)));
            let errored = step(started, Event::Fire(Err(cause)));
            &&& errored.state == State::Error(cause)
            &&& start_verdict(errored.state) == Err::<(), TickerError>(
                TickerError::SchedulingFailure(cause),
            )
            &&& step(errored, Event::Start(later)) == errored
        }),
{
}

} // verus!
