use scired::accept::{accept_start, accept_step, AcceptDecision};
use scired::shutdown::ShutdownCoordinator;

#[test]
fn three_failures_then_success_does_not_terminate() {
    let mut state = accept_start();
    assert_eq!(accept_step(&mut state, false), AcceptDecision::RetryAfter(1));
    assert_eq!(accept_step(&mut state, false), AcceptDecision::RetryAfter(2));
    assert_eq!(accept_step(&mut state, false), AcceptDecision::RetryAfter(4));
    assert_eq!(accept_step(&mut state, true), AcceptDecision::Serve);
}

#[test]
fn success_restarts_the_backoff() {
    let mut state = accept_start();
    accept_step(&mut state, false);
    accept_step(&mut state, false);
    accept_step(&mut state, true);
    assert_eq!(state.backoff, 1);
}

#[test]
fn failures_beyond_the_ceiling_give_up() {
    let mut state = accept_start();
    let mut retries: Vec<u64> = Vec::new();
    loop {
        match accept_step(&mut state, false) {
            AcceptDecision::RetryAfter(delay) => retries.push(delay),
            AcceptDecision::GiveUp => break,
            AcceptDecision::Serve => unreachable!(),
        }
    }
    assert_eq!(retries, vec![1, 2, 4, 8, 16, 32, 64]);
    assert_eq!(state.backoff, 128);
}

#[test]
fn shutdown_waits_for_every_handler() {
    let mut coord = ShutdownCoordinator::new();
    let sub_a = coord.subscribe();
    let sub_b = coord.subscribe();
    assert!(!sub_a.is_shutdown());
    assert!(!sub_b.is_shutdown());
    coord.request_stop();
    assert!(!coord.is_drained());
    coord.release();
    assert!(!coord.is_drained());
    coord.release();
    assert!(coord.is_drained());
}

#[test]
fn request_stop_is_idempotent() {
    let mut coord = ShutdownCoordinator::new();
    coord.subscribe();
    coord.request_stop();
    let live_after_first = coord.live;
    let requested_after_first = coord.requested;
    coord.request_stop();
    assert_eq!(coord.live, live_after_first);
    assert_eq!(coord.requested, requested_after_first);
    assert!(coord.requested);
}

#[test]
fn empty_coordinator_is_drained_at_once() {
    let mut coord = ShutdownCoordinator::new();
    coord.request_stop();
    assert!(coord.is_drained());
}

#[test]
fn subscription_observes_at_most_one_transition() {
    let mut coord = ShutdownCoordinator::new();
    let mut sub = coord.subscribe();
    assert!(!sub.is_shutdown());
    sub.observe();
    assert!(sub.is_shutdown());
    sub.observe();
    assert!(sub.is_shutdown());
}

#[test]
fn late_subscriber_sees_the_stop_at_once() {
    let mut coord = ShutdownCoordinator::new();
    coord.request_stop();
    let sub = coord.subscribe();
    assert!(sub.is_shutdown());
    coord.release();
    assert!(coord.is_drained());
}
