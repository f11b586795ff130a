//! The shared state handle and the timer commands served to concurrent
//! callers. One `TimerState` lives behind a reader/writer lock whose
//! invariant is the accumulator's well-formedness; every command acquires
//! the lock for its full (synchronous, bounded) duration, so all four are
//! serialized against each other.

use vstd::prelude::*;
use vstd::rwlock::RwLock;
use vstd::string::StringExecFns;

use crate::timer::{
    get_time_info_internal, snapshot_ok, spec_pause, spec_start, TimeInfo, TimerModel, TimerState,
};

verus! {

/// The single shared instance guarding the accumulator for the process's
/// lifetime.
pub struct AppState {
    lock: RwLock<TimerState, spec_fn(TimerState) -> bool>,
}

impl AppState {
    /// The lock's invariant is exactly the accumulator's well-formedness.
    pub closed spec fn wf(&self) -> bool {
        self.lock.pred() == (|t: TimerState| t@.wf())
    }

    /// Creates the shared handle around a fresh accumulator.
    pub fn new() -> (s: AppState)
        ensures
            s.wf(),
    {
        let timer = TimerState::new();
        AppState { lock: RwLock::new(timer, Ghost(|t: TimerState| t@.wf())) }
    }
}

/// Opens a running period at `now_ms` — a no-op if one is already open — and
/// returns the snapshot of the new state. The snapshot is of the start of
/// some well-formed accumulator state, whichever state the serialized
/// commands before this one left behind.
pub fn start_timer(state: &AppState, now_ms: u64) -> (info: TimeInfo)
    requires
        state.wf(),
    ensures
        exists|m: TimerModel|
            m.wf() && snapshot_ok(info, #[trigger] spec_start(m, now_ms), now_ms),
{
    let (mut timer, handle) = state.lock.acquire_write();
    timer.start(now_ms);
    let info = get_time_info_internal(&timer, now_ms);
    handle.release_write(timer);
    info
}

/// Closes the open running period at `now_ms`, folding it into the
/// accumulator — a no-op if none is open — and returns the snapshot of the
/// new state.
pub fn pause_timer(state: &AppState, now_ms: u64) -> (info: TimeInfo)
    requires
        state.wf(),
    ensures
        exists|m: TimerModel|
            m.wf() && snapshot_ok(info, #[trigger] spec_pause(m, now_ms), now_ms),
{
    let (mut timer, handle) = state.lock.acquire_write();
    timer.pause(now_ms);
    let info = get_time_info_internal(&timer, now_ms);
    handle.release_write(timer);
    info
}

/// Takes the snapshot of the current state — the open period folded in —
/// then unconditionally resets the accumulator to its initial state. The
/// returned snapshot reflects the state immediately before the reset, which
/// the reset discards; callers must capture it at the call site.
pub fn stop_timer(state: &AppState, now_ms: u64) -> (info: TimeInfo)
    requires
        state.wf(),
    ensures
        exists|m: TimerModel| m.wf() && #[trigger] snapshot_ok(info, m, now_ms),
{
    let (mut timer, handle) = state.lock.acquire_write();
    let info = get_time_info_internal(&timer, now_ms);
    timer.stop();
    handle.release_write(timer);
    info
}

/// Returns the snapshot of the current state without mutating it: the
/// command only ever takes the lock for reading.
pub fn get_timer_time(state: &AppState, now_ms: u64) -> (info: TimeInfo)
    requires
        state.wf(),
    ensures
        exists|m: TimerModel| m.wf() && #[trigger] snapshot_ok(info, m, now_ms),
{
    let handle = state.lock.acquire_read();
    let timer = handle.borrow();
    let info = get_time_info_internal(timer, now_ms);
    handle.release_read();
    info
}

/// Builds the demonstration greeting for `name`.
pub fn greet(name: &str) -> (r: String)
    ensures
        r@ == "Hello, "@ + name@ + "! You've been greeted from Rust!"@,
{
    let mut r = String::from_str("Hello, ");
    r.append(name);
    r.append("! You've been greeted from Rust!");
    r
}

} // verus!
