//! Lifecycle scenarios for the ticker cores, driven the way an unverified
//! host driver would drive them: consult the core, perform the (here
//! simulated) host call, report the outcome back.

use wasm_ticker::ticker::{MessageChannelTicker, TokenTicker};
use wasm_ticker::{State, TickerError};

/// One host-delivered firing for a token ticker: run the task (increment
/// the counter) and rearm only if the core says so.
fn fire_cycle(t: &mut TokenTicker, counter: &mut u64, outcome: Result<u64, u64>) {
    if t.fire_check() {
        *counter += 1;
        let _ = t.note_sched(outcome);
    }
}

#[test]
fn fresh_ticker_is_stopped() {
    let t = TokenTicker::new();
    assert_eq!(t.state(), State::Stopped);
    assert_eq!(t.token(), None);
    let c = MessageChannelTicker::new();
    assert_eq!(c.state(), State::Stopped);
}

#[test]
fn stop_on_stopped_is_noop() {
    let mut t = TokenTicker::new();
    assert_eq!(t.stop(), None);
    assert_eq!(t.state(), State::Stopped);
    assert_eq!(t.stop(), None);
    assert_eq!(t.state(), State::Stopped);
}

#[test]
fn stop_on_errored_is_noop() {
    let mut t = TokenTicker::new();
    t.start().unwrap();
    let _ = t.note_sched(Err(5));
    assert_eq!(t.state(), State::Error(5));
    assert_eq!(t.stop(), None);
    assert_eq!(t.state(), State::Error(5));
}

#[test]
fn start_rejects_restart() {
    let mut t = TokenTicker::new();
    assert_eq!(t.start(), Ok(()));
    assert_eq!(t.note_sched(Ok(1)), Ok(()));
    assert_eq!(t.start(), Err(TickerError::AlreadyStarted));
    assert_eq!(t.state(), State::Started);
    assert_eq!(t.token(), Some(1));
}

#[test]
fn sequential_firing_counts_turns() {
    let mut t = TokenTicker::new();
    let mut counter: u64 = 0;
    t.start().unwrap();
    t.note_sched(Ok(1)).unwrap();
    for turn in 0..5u64 {
        fire_cycle(&mut t, &mut counter, Ok(turn + 2));
        assert_eq!(counter, turn + 1);
    }
    assert_eq!(t.state(), State::Started);
    assert_eq!(t.token(), Some(6));
}

#[test]
fn cancellation_on_stop() {
    let mut t = TokenTicker::new();
    let mut counter: u64 = 0;
    t.start().unwrap();
    t.note_sched(Ok(9)).unwrap();
    // stop before any firing: the pending token comes back for cancellation
    assert_eq!(t.stop(), Some(9));
    // a firing already dequeued by the host still arrives, and is skipped
    fire_cycle(&mut t, &mut counter, Ok(10));
    fire_cycle(&mut t, &mut counter, Ok(11));
    assert_eq!(counter, 0);
    assert_eq!(t.state(), State::Stopped);
    assert_eq!(t.token(), None);
}

#[test]
fn teardown_hands_back_pending_token() {
    let mut t = TokenTicker::new();
    t.start().unwrap();
    t.note_sched(Ok(42)).unwrap();
    assert_eq!(t.teardown(), Some(42));
    assert_eq!(t.token(), None);
    // nothing pending: teardown has nothing to cancel
    let mut fresh = TokenTicker::new();
    assert_eq!(fresh.teardown(), None);
}

#[test]
fn error_latch_on_failed_rearm() {
    let mut t = TokenTicker::new();
    let mut counter: u64 = 0;
    t.start().unwrap();
    t.note_sched(Ok(1)).unwrap();
    // first firing runs the task; the rearm fails and latches
    fire_cycle(&mut t, &mut counter, Err(77));
    assert_eq!(counter, 1);
    assert_eq!(t.state(), State::Error(77));
    // the next start re-reports the same cause and nothing is rearmed
    assert_eq!(t.start(), Err(TickerError::SchedulingFailure(77)));
    assert_eq!(t.state(), State::Error(77));
    // later firings are skipped
    fire_cycle(&mut t, &mut counter, Ok(2));
    assert_eq!(counter, 1);
}

#[test]
fn start_immediate_same_transition() {
    let mut t = TokenTicker::new();
    let mut counter: u64 = 0;
    assert_eq!(t.start_immediate(), Ok(()));
    // the driver performs the first cycle synchronously
    fire_cycle(&mut t, &mut counter, Ok(3));
    assert_eq!(counter, 1);
    assert_eq!(t.state(), State::Started);
    assert_eq!(t.start_immediate(), Err(TickerError::AlreadyStarted));
}

#[test]
fn start_failure_latches_synchronously() {
    let mut t = TokenTicker::new();
    t.start().unwrap();
    // the very first arm fails: the cause is latched and reported
    assert_eq!(t.note_sched(Err(3)), Err(3));
    assert_eq!(t.state(), State::Error(3));
    assert_eq!(t.start(), Err(TickerError::SchedulingFailure(3)));
}

#[test]
fn message_channel_lifecycle() {
    let mut c = MessageChannelTicker::new();
    assert_eq!(c.start(), Ok(()));
    assert_eq!(c.note_post(Ok(())), Ok(()));
    assert_eq!(c.state(), State::Started);
    assert_eq!(c.start(), Err(TickerError::AlreadyStarted));
    // a delivered message runs the task only while started
    assert!(c.fire_check());
    c.stop();
    assert_eq!(c.state(), State::Stopped);
    assert!(!c.fire_check());
    c.stop();
    assert_eq!(c.state(), State::Stopped);
}

#[test]
fn message_channel_post_failure_latches() {
    let mut c = MessageChannelTicker::new();
    c.start().unwrap();
    assert_eq!(c.note_post(Err(12)), Err(12));
    assert_eq!(c.state(), State::Error(12));
    assert_eq!(c.start(), Err(TickerError::SchedulingFailure(12)));
    assert!(!c.fire_check());
}
