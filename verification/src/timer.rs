//! The time-accounting state machine: running/paused/elapsed bookkeeping over
//! a millisecond clock, its snapshot type, and the laws that sequences of
//! start/pause operations obey.
//!
//! Time is a `u64` count of milliseconds read from a monotonic clock by the
//! caller and handed in as `now_ms`. Every operation is total: an elapsed
//! interval on a clock that ran backwards counts as zero, and the accumulator
//! saturates at `u64::MAX` instead of wrapping.

use vstd::prelude::*;
use vstd::string::StringExecFns;

use crate::digits::{push_pad2, spec_pad2};

verus! {

/// Mathematical state of the accumulator: the fields of [`TimerState`] as
/// ghost values.
pub ghost struct TimerModel {
    /// Total active milliseconds folded in by past pauses.
    pub accumulated_ms: u64,
    /// True exactly while a running period is open.
    pub running: bool,
    /// Clock reading at which the open running period began.
    pub start_ms: Option<u64>,
}

impl TimerModel {
    /// The accumulator's invariant: a start time is recorded exactly while
    /// the timer runs.
    pub open spec fn wf(self) -> bool {
        self.running <==> self.start_ms is Some
    }

    /// The state the accumulator is created in, and that `stop` resets to.
    pub open spec fn init() -> TimerModel {
        TimerModel { accumulated_ms: 0, running: false, start_ms: None }
    }
}

/// Milliseconds from `start` to `now`, zero if the clock reads earlier than
/// `start`.
pub open spec fn elapsed_ms(start: u64, now: u64) -> u64 {
    if now >= start {
        (now - start) as u64
    } else {
        0
    }
}

/// `acc + extra`, saturating at `u64::MAX`.
pub open spec fn fold_ms(acc: u64, extra: u64) -> u64 {
    if acc + extra <= u64::MAX {
        (acc + extra) as u64
    } else {
        u64::MAX
    }
}

/// Milliseconds of the currently open running period, zero when paused.
pub open spec fn in_flight_ms(m: TimerModel, now_ms: u64) -> u64 {
    if m.running && m.start_ms is Some {
        elapsed_ms(m.start_ms.unwrap(), now_ms)
    } else {
        0
    }
}

/// Total active milliseconds as of `now_ms`, the open period included.
pub open spec fn total_ms(m: TimerModel, now_ms: u64) -> u64 {
    fold_ms(m.accumulated_ms, in_flight_ms(m, now_ms))
}

/// Whole seconds of the total, as shown to the caller.
pub open spec fn total_seconds(m: TimerModel, now_ms: u64) -> u64 {
    total_ms(m, now_ms) / 1000
}

/// What `start` does: opens a running period at `now_ms`; a no-op while
/// already running.
pub open spec fn spec_start(m: TimerModel, now_ms: u64) -> TimerModel {
    if m.running {
        m
    } else {
        TimerModel { accumulated_ms: m.accumulated_ms, running: true, start_ms: Some(now_ms) }
    }
}

/// What `pause` does: folds the open period into the accumulator and closes
/// it; a no-op while not running.
pub open spec fn spec_pause(m: TimerModel, now_ms: u64) -> TimerModel {
    if m.running {
        TimerModel {
            accumulated_ms: fold_ms(m.accumulated_ms, in_flight_ms(m, now_ms)),
            running: false,
            start_ms: None,
        }
    } else {
        m
    }
}

/// The zero-padded `HH:MM:SS` rendering of a second count; the hours field
/// grows beyond two digits rather than wrapping.
pub open spec fn spec_hhmmss(secs: nat) -> Seq<char> {
    spec_pad2(secs / 3600) + seq![':'] + spec_pad2((secs % 3600) / 60) + seq![':'] + spec_pad2(
        secs % 60,
    )
}

/// Renders a second count as zero-padded `HH:MM:SS`.
pub fn format_hhmmss(secs: u64) -> (r: String)
    ensures
        r@ == spec_hhmmss(secs as nat),
{
    let h = secs / 3600;
    let m = (secs % 3600) / 60;
    let s = secs % 60;
    let mut r = String::new();
    push_pad2(&mut r, h);
    r.append(":");
    push_pad2(&mut r, m);
    r.append(":");
    push_pad2(&mut r, s);
    proof {
        reveal_strlit(":");
        assert(r@ =~= spec_hhmmss(secs as nat));
    }
    r
}

/// The derived view of the accumulator handed back by every timer command.
#[derive(Debug)]
pub struct TimeInfo {
    /// `seconds` rendered as zero-padded `HH:MM:SS`.
    pub formatted_time: String,
    /// Whole seconds of active time, the open running period included.
    pub seconds: u64,
    /// Whether a running period is open.
    pub is_running: bool,
}

/// `info` is the snapshot of model `m` taken at `now_ms`.
pub open spec fn snapshot_ok(info: TimeInfo, m: TimerModel, now_ms: u64) -> bool {
    &&& info.seconds == total_seconds(m, now_ms)
    &&& info.is_running == m.running
    &&& info.formatted_time@ == spec_hhmmss(info.seconds as nat)
}

/// The accumulator itself. Created once at process start; mutated only by
/// the timer operations, each of which holds exclusive access.
pub struct TimerState {
    start_time: Option<u64>,
    accumulated_time: u64,
    is_running: bool,
}

impl View for TimerState {
    type V = TimerModel;

    closed spec fn view(&self) -> TimerModel {
        TimerModel {
            accumulated_ms: self.accumulated_time,
            running: self.is_running,
            start_ms: self.start_time,
        }
    }
}

impl TimerState {
    /// A fresh accumulator: nothing accumulated, not running.
    pub fn new() -> (t: Self)
        ensures
            t@ == TimerModel::init(),
    {
        Self { start_time: None, accumulated_time: 0, is_running: false }
    }

    /// Opens a running period at `now_ms`; does nothing while already
    /// running, so a repeated `start` never loses elapsed time.
    pub fn start(&mut self, now_ms: u64)
        ensures
            final(self)@ == spec_start(old(self)@, now_ms),
    {
        if !self.is_running {
            self.start_time = Some(now_ms);
            self.is_running = true;
        }
    }

    /// Folds the open running period into the accumulator and closes it;
    /// does nothing while not running.
    pub fn pause(&mut self, now_ms: u64)
        ensures
            final(self)@ == spec_pause(old(self)@, now_ms),
    {
        if self.is_running {
            if let Some(start) = self.start_time {
                let elapsed: u64 = if now_ms >= start {
                    now_ms - start
                } else {
                    0
                };
                self.accumulated_time = if elapsed <= u64::MAX - self.accumulated_time {
                    self.accumulated_time + elapsed
                } else {
                    u64::MAX
                };
            }
            self.start_time = None;
            self.is_running = false;
        }
    }

    /// Resets the accumulator to its initial state, whatever it held.
    pub fn stop(&mut self)
        ensures
            final(self)@ == TimerModel::init(),
    {
        self.start_time = None;
        self.accumulated_time = 0;
        self.is_running = false;
    }
}

/// Computes the snapshot of `timer` as of `now_ms` without mutating it: total
/// seconds with the open period folded in, the `HH:MM:SS` rendering, and the
/// running flag.
pub fn get_time_info_internal(timer: &TimerState, now_ms: u64) -> (info: TimeInfo)
    ensures
        snapshot_ok(info, timer@, now_ms),
{
    let mut total: u64 = timer.accumulated_time;
    if timer.is_running {
        if let Some(start) = timer.start_time {
            let elapsed: u64 = if now_ms >= start {
                now_ms - start
            } else {
                0
            };
            total = if elapsed <= u64::MAX - total {
                total + elapsed
            } else {
                u64::MAX
            };
        }
    }
    let secs = total / 1000;
    TimeInfo { formatted_time: format_hhmmss(secs), seconds: secs, is_running: timer.is_running }
}

/// One timer operation together with the clock reading it was issued at.
pub ghost enum TimerEvent {
    Start(u64),
    Pause(u64),
}

impl TimerEvent {
    /// The clock reading of the event.
    pub open spec fn at(self) -> u64 {
        match self {
            TimerEvent::Start(t) => t,
            TimerEvent::Pause(t) => t,
        }
    }
}

/// The model after one event.
pub open spec fn apply_event(m: TimerModel, e: TimerEvent) -> TimerModel {
    match e {
        TimerEvent::Start(t) => spec_start(m, t),
        TimerEvent::Pause(t) => spec_pause(m, t),
    }
}

/// The model after a sequence of events, applied in order.
pub open spec fn apply_events(m: TimerModel, es: Seq<TimerEvent>) -> TimerModel
    decreases es.len(),
{
    if es.len() == 0 {
        m
    } else {
        apply_events(apply_event(m, es[0]), es.drop_first())
    }
}

/// The events carry nondecreasing clock readings, none earlier than `lo`.
pub open spec fn events_ordered(es: Seq<TimerEvent>, lo: u64) -> bool
    decreases es.len(),
{
    es.len() == 0 || (lo <= es[0].at() && events_ordered(es.drop_first(), es[0].at()))
}

/// The sum of the wall-clock durations between each effective start and the
/// pause that ends it, given that a period has been open since `running_since`.
/// A start while running and a pause while paused contribute nothing, and an
/// open period not yet ended by a pause is not counted.
pub open spec fn paired_sum(es: Seq<TimerEvent>, running_since: Option<u64>) -> int
    decreases es.len(),
{
    if es.len() == 0 {
        0
    } else {
        match es[0] {
            TimerEvent::Start(t) => if running_since is Some {
                paired_sum(es.drop_first(), running_since)
            } else {
                paired_sum(es.drop_first(), Some(t))
            },
            TimerEvent::Pause(t) => match running_since {
                Some(s) => t - s + paired_sum(es.drop_first(), None),
                None => paired_sum(es.drop_first(), None),
            },
        }
    }
}

/// With ordered clock readings every completed start/pause pair lasts a
/// nonnegative time, so the paired sum is nonnegative.
proof fn lemma_paired_sum_nonneg(es: Seq<TimerEvent>, lo: u64, running_since: Option<u64>)
    requires
        events_ordered(es, lo),
        running_since matches Some(s) ==> s <= lo,
    ensures
        paired_sum(es, running_since) >= 0,
    decreases es.len(),
{
    if es.len() > 0 {
        match es[0] {
            TimerEvent::Start(t) => {
                if running_since is Some {
                    lemma_paired_sum_nonneg(es.drop_first(), t, running_since);
                } else {
                    lemma_paired_sum_nonneg(es.drop_first(), t, Some(t));
                }
            },
            TimerEvent::Pause(t) => {
                lemma_paired_sum_nonneg(es.drop_first(), t, None);
            },
        }
    }
}

/// Accumulation is associative over operation sequences: after any sequence
/// of start and pause operations with nondecreasing clock readings whose
/// total fits in the accumulator, the accumulated time has grown by exactly
/// the sum of the durations between each effective start and the pause that
/// ends it — however many start/pause pairs there were, and with redundant
/// starts and pauses contributing nothing.
pub proof fn lemma_accumulated_is_paired_sum(m: TimerModel, es: Seq<TimerEvent>, lo: u64)
    requires
        m.wf(),
        events_ordered(es, lo),
        m.running ==> m.start_ms.unwrap() <= lo,
        m.accumulated_ms + paired_sum(es, m.start_ms) <= u64::MAX,
    ensures
        apply_events(m, es).wf(),
        apply_events(m, es).accumulated_ms == m.accumulated_ms + paired_sum(es, m.start_ms),
    decreases es.len(),
{
    if es.len() > 0 {
        let m1 = apply_event(m, es[0]);
        let rest = es.drop_first();
        let t = es[0].at();
        match es[0] {
            TimerEvent::Start(_) => {
                lemma_accumulated_is_paired_sum(m1, rest, t);
            },
            TimerEvent::Pause(_) => {
                if m.running {
                    let s = m.start_ms.unwrap();
                    lemma_paired_sum_nonneg(rest, t, None);
                    assert(m.accumulated_ms + (t - s) <= u64::MAX);
                    lemma_accumulated_is_paired_sum(m1, rest, t);
                } else {
                    lemma_accumulated_is_paired_sum(m1, rest, t);
                }
            },
        }
    }
}

/// A second `start` while the timer already runs is a no-op: it neither
/// resets the recorded start time nor loses elapsed running time.
pub proof fn lemma_start_idempotent(m: TimerModel, t1: u64, t2: u64)
    ensures
        spec_start(spec_start(m, t1), t2) == spec_start(m, t1),
{
}

} // verus!
