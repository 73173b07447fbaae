//! Verified models of the two timer shapes a spawn can create: the one-shot
//! wait of a delayed or absolute-time spawn, and the recurring-timer loop of
//! a repeating spawn. The host drives the real timers on the execution
//! substrate; these models fix what aborting a handle does and when an
//! instance may be produced.

use vstd::prelude::*;

verus! {

/// The lifecycle of one pending one-shot wait: it is waiting until the
/// timer either fires (producing the one instance, lazily, only then) or is
/// aborted first.
#[derive(Debug, Clone, Copy, PartialEq, Eq, Structural)]
pub enum OneShotState {
    /// The timer has not elapsed; no instance exists yet.
    Waiting,
    /// The timer elapsed and the one instance was produced.
    Fired,
    /// The wait was cancelled before the timer elapsed; the instance was
    /// never produced.
    Aborted,
}

/// The state after an abort: a pending wait is cancelled; firing and a
/// previous abort are left as they are (aborting is idempotent, and
/// aborting after the fire no longer concerns the wait, only the
/// already-running instance).
pub open spec fn spec_abort_one_shot(s: OneShotState) -> OneShotState {
    match s {
        OneShotState::Waiting => OneShotState::Aborted,
        OneShotState::Fired => OneShotState::Fired,
        OneShotState::Aborted => OneShotState::Aborted,
    }
}

/// The state after the timer elapses: only a pending wait fires. A
/// cancelled wait is guaranteed never to fire.
pub open spec fn spec_fire_one_shot(s: OneShotState) -> OneShotState {
    match s {
        OneShotState::Waiting => OneShotState::Fired,
        OneShotState::Fired => OneShotState::Fired,
        OneShotState::Aborted => OneShotState::Aborted,
    }
}

/// Whether the timer elapsing in state `s` produces the instance.
pub open spec fn spec_fire_dispatches(s: OneShotState) -> bool {
    s is Waiting
}

impl OneShotState {
    /// The timer elapses. Exactly from `Waiting` the factory is invoked and
    /// the one instance produced and handed to the substrate; a cancelled
    /// wait produces nothing, ever.
    pub fn fire(&mut self) -> (dispatched: bool)
        ensures
            *final(self) == spec_fire_one_shot(*old(self)),
            dispatched == spec_fire_dispatches(*old(self)),
    {
        match *self {
            OneShotState::Waiting => {
                *self = OneShotState::Fired;
                true
            },
            _ => false,
        }
    }

    /// The handle is aborted: best effort, idempotent, a no-op once the
    /// wait already fired.
    pub fn abort(&mut self)
        ensures
            *final(self) == spec_abort_one_shot(*old(self)),
    {
        if let OneShotState::Waiting = *self {
            *self = OneShotState::Aborted;
        }
    }
}

/// Aborting the handle of a one-shot spawn before its timer fires
/// guarantees the instance is never created: the wait is cancelled at once,
/// and from a cancelled wait no fire — however often the substrate's timer
/// would have elapsed — dispatches anything. No send on the result channel
/// can ever come from that spawn.
pub proof fn lemma_abort_before_fire_prevents_dispatch(s: OneShotState)
    requires
        s is Waiting,
    ensures
        spec_abort_one_shot(s) is Aborted,
        !spec_fire_dispatches(spec_abort_one_shot(s)),
        spec_fire_one_shot(spec_abort_one_shot(s)) is Aborted,
{
}

/// Aborting is idempotent: a second abort changes nothing.
pub proof fn lemma_abort_idempotent(s: OneShotState)
    ensures
        spec_abort_one_shot(spec_abort_one_shot(s)) == spec_abort_one_shot(s),
{
}

/// The lifecycle of one recurring-timer loop: each tick dispatches a fresh
/// instance without waiting for earlier ones, until the loop is stopped.
#[derive(Debug, Clone, Copy, PartialEq, Eq, Structural)]
pub struct TimerLoop {
    /// Instances dispatched by ticks so far.
    pub dispatched: u64,
    /// Whether the loop's handle was aborted.
    pub stopped: bool,
}

impl TimerLoop {
    /// A freshly scheduled loop: no tick has come yet (the first comes one
    /// full interval after scheduling).
    pub fn new() -> (t: TimerLoop)
        ensures
            t == (TimerLoop { dispatched: 0, stopped: false }),
    {
        TimerLoop { dispatched: 0, stopped: false }
    }

    /// A tick of the recurring timer. A running loop invokes the factory
    /// and hands the fresh instance to the substrate at once — it never
    /// waits for an earlier instance to finish — while a stopped loop
    /// dispatches nothing.
    pub fn tick(&mut self) -> (dispatched_now: bool)
        requires
            old(self).dispatched < u64::MAX,
        ensures
            dispatched_now == !old(self).stopped,
            final(self).stopped == old(self).stopped,
            final(self).dispatched == if old(self).stopped {
                old(self).dispatched as int
            } else {
                old(self).dispatched + 1
            },
    {
        if self.stopped {
            false
        } else {
            self.dispatched = self.dispatched + 1;
            true
        }
    }

    /// The loop's handle is aborted: no future tick will dispatch, and the
    /// instances already dispatched by earlier ticks are not retracted or
    /// cancelled — this handle owns only the loop's own lifecycle.
    pub fn stop(&mut self)
        ensures
            final(self).stopped,
            final(self).dispatched == old(self).dispatched,
    {
        self.stopped = true;
    }
}

/// How many ticks a recurring timer with period `interval_ms` has seen
/// `elapsed_ms` after scheduling: the first tick comes one full period
/// after scheduling, so the count is the number of whole periods elapsed.
pub open spec fn spec_ticks_elapsed(interval_ms: u64, elapsed_ms: u64) -> int {
    elapsed_ms as int / interval_ms as int
}

/// The tick count `elapsed_ms` after scheduling a recurring timer of
/// period `interval_ms`.
pub fn ticks_elapsed(interval_ms: u64, elapsed_ms: u64) -> (n: u64)
    requires
        interval_ms > 0,
    ensures
        n == spec_ticks_elapsed(interval_ms, elapsed_ms),
{
    elapsed_ms / interval_ms
}

/// `n` ticks take `n` full periods: the count reaches `n` exactly when
/// `n * interval_ms` has elapsed. In particular no tick — and so no
/// tick-triggered send — comes earlier than one full period after
/// scheduling.
pub proof fn lemma_ticks_need_full_periods(interval_ms: u64, elapsed_ms: u64, n: u64)
    requires
        interval_ms > 0,
    ensures
        spec_ticks_elapsed(interval_ms, elapsed_ms) >= n <==> elapsed_ms >= n * interval_ms,
{
    let d = interval_ms as int;
    let t = elapsed_ms as int;
    let k = n as int;
    assert(t / d >= k <==> t >= k * d) by (nonlinear_arith)
        requires
            d > 0,
            t >= 0,
            k >= 0,
    ;
}

} // verus!
