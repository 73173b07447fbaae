//! Tests of the result-channel lifecycle model and of the timer-state
//! models: closing semantics, FIFO delivery, and what aborting a handle
//! does and does not cancel.

use neko::scheduler::channel::{ChannelModel, Recv};
use neko::scheduler::timer::{OneShotState, TimerLoop};

#[test]
fn receiver_sees_all_and_only_sent_values_in_order() {
    let mut c: ChannelModel<u64> = ChannelModel::new(3);
    c.send(1);
    c.send(2);
    c.send(3);
    assert!(matches!(c.recv(), Recv::Value(1)));
    assert!(matches!(c.recv(), Recv::Value(2)));
    assert!(matches!(c.recv(), Recv::Value(3)));
    assert!(matches!(c.recv(), Recv::Pending));
}

#[test]
fn empty_channel_with_live_senders_is_pending_not_closed() {
    let mut c: ChannelModel<u64> = ChannelModel::new(1);
    assert!(matches!(c.recv(), Recv::Pending));
    c.clone_sender();
    assert!(matches!(c.recv(), Recv::Pending));
}

#[test]
fn channel_closes_exactly_when_every_sender_is_released() {
    let mut c: ChannelModel<u64> = ChannelModel::new(2);
    // an instance is dispatched: the factory clones the registry's sender
    c.clone_sender();
    assert_eq!(c.sender_count(), 2);
    // the registration is removed: the registry's clone is released, but
    // the in-flight instance still holds its own
    c.drop_sender();
    c.send(7);
    assert!(matches!(c.recv(), Recv::Value(7)));
    assert!(matches!(c.recv(), Recv::Pending));
    // the instance finishes and releases the last clone
    c.drop_sender();
    assert!(matches!(c.recv(), Recv::Closed));
}

#[test]
fn buffered_values_survive_closing() {
    let mut c: ChannelModel<u64> = ChannelModel::new(2);
    c.send(5);
    c.drop_sender();
    assert_eq!(c.len(), 1);
    assert!(matches!(c.recv(), Recv::Value(5)));
    assert!(matches!(c.recv(), Recv::Closed));
}

#[test]
fn capacity_is_fixed_at_creation() {
    let c: ChannelModel<u64> = ChannelModel::new(4);
    assert_eq!(c.capacity(), 4);
    assert_eq!(c.len(), 0);
    assert_eq!(c.sender_count(), 1);
}

#[test]
fn abort_before_fire_prevents_the_dispatch() {
    let mut wait = OneShotState::Waiting;
    wait.abort();
    assert_eq!(wait, OneShotState::Aborted);
    // however often the timer would have elapsed, nothing is dispatched
    assert!(!wait.fire());
    assert!(!wait.fire());
    assert_eq!(wait, OneShotState::Aborted);
}

#[test]
fn fire_dispatches_exactly_once() {
    let mut wait = OneShotState::Waiting;
    assert!(wait.fire());
    assert_eq!(wait, OneShotState::Fired);
    assert!(!wait.fire());
}

#[test]
fn abort_is_idempotent_and_a_noop_after_fire() {
    let mut wait = OneShotState::Waiting;
    wait.abort();
    wait.abort();
    assert_eq!(wait, OneShotState::Aborted);

    let mut fired = OneShotState::Waiting;
    assert!(fired.fire());
    fired.abort();
    assert_eq!(fired, OneShotState::Fired);
}

#[test]
fn stopping_the_timer_loop_keeps_past_dispatches() {
    let mut looping = TimerLoop::new();
    assert!(looping.tick());
    assert!(looping.tick());
    assert_eq!(looping.dispatched, 2);
    looping.stop();
    assert_eq!(looping.dispatched, 2);
    assert!(!looping.tick());
    assert_eq!(looping.dispatched, 2);
}
