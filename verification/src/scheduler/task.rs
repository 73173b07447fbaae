//! Timing policies, their resolution into concrete fire plans, and the
//! cancellation handle for one spawned instance or timer loop.
//!
//! Times are carried as plain integers: an absolute time is milliseconds
//! since the Unix epoch (signed, as a clock may read times before it), a
//! duration is milliseconds (unsigned).

use vstd::prelude::*;

verus! {

/// When instances of a task should run, fixed at the moment of a spawn call.
#[derive(Debug, Clone, Copy, PartialEq, Eq, Structural)]
pub enum Timing {
    /// One instance, produced and handed to the substrate at once.
    Immediate,
    /// One instance when the clock reaches this absolute time, in
    /// milliseconds since the Unix epoch. A time already in the past waits
    /// zero milliseconds; it is not an error.
    DateTime(i64),
    /// One instance after this many milliseconds.
    Delayed(u64),
    /// One instance per tick of a recurring timer with this period in
    /// milliseconds; the first tick comes one full period after scheduling,
    /// never at once.
    Repeating(u64),
}

/// A timing policy resolved against the clock: the concrete suspend/fire
/// behaviour the execution substrate is asked for.
#[derive(Debug, Clone, Copy, PartialEq, Eq, Structural)]
pub enum FirePlan {
    /// Produce the instance now.
    Now,
    /// Wait this many milliseconds, then produce one instance.
    Once(u64),
    /// Tick every this many milliseconds, first tick one full period from
    /// now, and produce one instance per tick.
    Every(u64),
}

/// How long a one-shot wait until `at_ms` lasts when the clock reads
/// `now_ms`: the difference, or zero when the time has already passed.
pub open spec fn spec_wait_until(at_ms: i64, now_ms: i64) -> u64 {
    if at_ms <= now_ms {
        0
    } else {
        (at_ms - now_ms) as u64
    }
}

/// What `timing` asks of the substrate when the clock reads `now_ms`.
/// Only an absolute-time policy consults the clock.
pub open spec fn plan_of(timing: Timing, now_ms: i64) -> FirePlan {
    match timing {
        Timing::Immediate => FirePlan::Now,
        Timing::DateTime(at_ms) => FirePlan::Once(spec_wait_until(at_ms, now_ms)),
        Timing::Delayed(d_ms) => FirePlan::Once(d_ms),
        Timing::Repeating(d_ms) => FirePlan::Every(d_ms),
    }
}

/// The milliseconds to wait until `at_ms`, zero when it has already passed.
pub fn wait_until(at_ms: i64, now_ms: i64) -> (r: u64)
    ensures
        r == spec_wait_until(at_ms, now_ms),
{
    if at_ms <= now_ms {
        0
    } else {
        let wide: i128 = (at_ms as i128) - (now_ms as i128);
        assert(0 < wide <= u64::MAX);
        wide as u64
    }
}

/// Resolves a timing policy against the clock reading `now_ms`.
pub fn resolve_timing(timing: Timing, now_ms: i64) -> (r: FirePlan)
    ensures
        r == plan_of(timing, now_ms),
{
    match timing {
        Timing::Immediate => FirePlan::Now,
        Timing::DateTime(at_ms) => FirePlan::Once(wait_until(at_ms, now_ms)),
        Timing::Delayed(d_ms) => FirePlan::Once(d_ms),
        Timing::Repeating(d_ms) => FirePlan::Every(d_ms),
    }
}

/// Declares `tokio::task::JoinHandle`, the substrate's own handle to one
/// spawned task, so a `TaskHandle` can hold one. The library reads nothing
/// out of it.
#[verifier::external_type_specification]
#[verifier::external_body]
#[verifier::reject_recursive_types(T)]
pub struct ExJoinHandle<T>(tokio::task::JoinHandle<T>);

/// Declares `tokio::task::JoinError`, which awaiting a `JoinHandle`
/// mentions; the library never constructs or reads one.
#[verifier::external_type_specification]
#[verifier::external_body]
pub struct ExJoinError(tokio::task::JoinError);

/// The cancellation capability for exactly one spawned instance or one
/// recurring-timer loop. It is not copyable; it is consumed by `abort`, or
/// dropped to mean "detach: let it run".
#[derive(Debug)]
pub struct TaskHandle {
    handle: tokio::task::JoinHandle<()>,
}

impl TaskHandle {
    pub fn new(handle: tokio::task::JoinHandle<()>) -> TaskHandle {
        TaskHandle { handle }
    }

    /// Relies on `tokio::task::JoinHandle::abort`: a best-effort,
    /// asynchronous cancellation signal to the one task behind the handle;
    /// it returns without waiting for that task to stop, and it is a no-op
    /// on a task that already finished.
    #[verifier::external_body]
    pub fn abort(self) {
        self.handle.abort();
    }
}

} // verus!
