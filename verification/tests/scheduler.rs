//! Tests of the scheduler core: registration, removal, lookup, and the
//! resolution of timing policies into fire plans.

use neko::scheduler::error::SchedulerError;
use neko::scheduler::task::{resolve_timing, wait_until, FirePlan, Timing};
use neko::scheduler::timer::ticks_elapsed;
use neko::scheduler::Scheduler;

#[test]
fn register_same_id_twice_fails_with_duplicate() {
    let mut s = Scheduler::new();
    assert!(s.register_task("t", 1).is_ok());
    match s.register_task("t", 1) {
        Err(SchedulerError::DuplicateTaskId(id)) => assert_eq!(id, "t"),
        other => panic!("expected DuplicateTaskId, got {:?}", other),
    }
}

#[test]
fn reregister_after_remove_succeeds() {
    let mut s = Scheduler::new();
    assert!(s.register_task("t", 1).is_ok());
    assert!(s.remove_task("t").is_ok());
    assert!(s.register_task("t", 2).is_ok());
}

#[test]
fn remove_unknown_id_fails_with_not_found() {
    let mut s = Scheduler::new();
    match s.remove_task("missing") {
        Err(SchedulerError::TaskNotFound(id)) => assert_eq!(id, "missing"),
        other => panic!("expected TaskNotFound, got {:?}", other),
    }
}

#[test]
fn spawn_unknown_id_fails_with_not_found() {
    let s = Scheduler::new();
    match s.spawn_task("missing", Timing::Immediate) {
        Err(SchedulerError::TaskNotFound(id)) => assert_eq!(id, "missing"),
        other => panic!("expected TaskNotFound, got {:?}", other),
    }
}

#[test]
fn remove_then_spawn_fails_even_with_others_registered() {
    let mut s = Scheduler::new();
    assert!(s.register_task("t", 1).is_ok());
    assert!(s.register_task("u", 1).is_ok());
    assert!(s.remove_task("t").is_ok());
    match s.spawn_task("t", Timing::Immediate) {
        Err(SchedulerError::TaskNotFound(id)) => assert_eq!(id, "t"),
        other => panic!("expected TaskNotFound, got {:?}", other),
    }
    // the other registration is untouched
    assert!(s.contains("u"));
    assert!(s.spawn_task("u", Timing::Immediate).is_ok());
}

#[test]
fn contains_is_a_pure_lookup() {
    let mut s = Scheduler::new();
    assert!(!s.contains("t"));
    assert!(s.register_task("t", 1).is_ok());
    assert!(s.contains("t"));
    assert!(!s.contains("u"));
    assert!(s.contains("t"));
    assert!(s.remove_task("t").is_ok());
    assert!(!s.contains("t"));
}

#[test]
fn factory_tokens_are_never_reused() {
    let mut s = Scheduler::new();
    let t0 = s.register_task("a", 1).unwrap();
    let t1 = s.register_task("b", 1).unwrap();
    assert!(s.remove_task("a").is_ok());
    let t2 = s.register_task("a", 1).unwrap();
    assert_ne!(t0, t1);
    assert_ne!(t0, t2);
    assert_ne!(t1, t2);
}

#[test]
fn remove_returns_the_token_registration_handed_out() {
    let mut s = Scheduler::new();
    let t0 = s.register_task("a", 1).unwrap();
    let t1 = s.register_task("b", 1).unwrap();
    assert_eq!(s.remove_task("a").unwrap(), t0);
    assert_eq!(s.remove_task("b").unwrap(), t1);
}

#[test]
fn spawn_resolves_each_policy() {
    let mut s = Scheduler::new();
    let token = s.register_task("t", 4).unwrap();

    let p = s.spawn_task("t", Timing::Immediate).unwrap();
    assert_eq!(p.factory, token);
    assert_eq!(p.plan, FirePlan::Now);

    let p = s.spawn_task("t", Timing::Delayed(350)).unwrap();
    assert_eq!(p.plan, FirePlan::Once(350));

    let p = s.spawn_task("t", Timing::Repeating(200)).unwrap();
    assert_eq!(p.plan, FirePlan::Every(200));

    // an absolute time long past resolves to a zero wait, not an error
    let p = s.spawn_task("t", Timing::DateTime(0)).unwrap();
    assert_eq!(p.plan, FirePlan::Once(0));
}

#[test]
fn resolving_a_past_time_waits_zero() {
    assert_eq!(resolve_timing(Timing::DateTime(100), 250), FirePlan::Once(0));
    assert_eq!(resolve_timing(Timing::DateTime(250), 250), FirePlan::Once(0));
    assert_eq!(resolve_timing(Timing::DateTime(-5), 250), FirePlan::Once(0));
}

#[test]
fn resolving_a_future_time_waits_the_difference() {
    assert_eq!(resolve_timing(Timing::DateTime(300), 250), FirePlan::Once(50));
    assert_eq!(wait_until(i64::MAX, i64::MIN + 1), u64::MAX - 1);
    assert_eq!(wait_until(1, 0), 1);
}

#[test]
fn resolving_ignores_the_clock_unless_absolute() {
    assert_eq!(resolve_timing(Timing::Immediate, -7), FirePlan::Now);
    assert_eq!(resolve_timing(Timing::Delayed(0), 99), FirePlan::Once(0));
    assert_eq!(resolve_timing(Timing::Repeating(1), -3), FirePlan::Every(1));
}

#[test]
fn three_ticks_in_650ms_at_200ms_period() {
    // the first tick comes one full period after scheduling, so 650ms of a
    // 200ms timer has seen the ticks at 200, 400 and 600 only
    assert_eq!(ticks_elapsed(200, 650), 3);
    assert_eq!(ticks_elapsed(200, 599), 2);
    assert_eq!(ticks_elapsed(200, 600), 3);
    assert_eq!(ticks_elapsed(200, 799), 3);
    assert_eq!(ticks_elapsed(200, 800), 4);
}

#[test]
fn no_tick_before_one_full_period() {
    assert_eq!(ticks_elapsed(200, 0), 0);
    assert_eq!(ticks_elapsed(200, 199), 0);
    assert_eq!(ticks_elapsed(200, 200), 1);
    assert_eq!(ticks_elapsed(1, 0), 0);
}

#[test]
fn error_messages_name_the_id() {
    let dup = SchedulerError::DuplicateTaskId("news".to_string());
    assert_eq!(dup.message(), "a task already exists with the id news");
    let missing = SchedulerError::TaskNotFound("news".to_string());
    assert_eq!(missing.message(), "could not find a task with the id news");
}
