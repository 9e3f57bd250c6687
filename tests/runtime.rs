use plast_mem::runtime::{HandlerStatus, Settlement, WorkerPool, SHUTDOWN_GRACE_SECS};

#[test]
fn grace_period_is_five_seconds() {
    assert_eq!(SHUTDOWN_GRACE_SECS, 5);
}

#[test]
fn pulls_until_cancelled() {
    let mut pool = WorkerPool::new();
    assert_eq!(pool.pull(), Some(0));
    assert_eq!(pool.pull(), Some(1));
    pool.cancel(10);
    assert_eq!(pool.pull(), None);
    assert_eq!(pool.handlers.len(), 2);
}

#[test]
fn finished_handlers_settle_once() {
    let mut pool = WorkerPool::new();
    let a = pool.pull().unwrap();
    let b = pool.pull().unwrap();
    assert_eq!(pool.finish(a, true), Settlement::Acknowledge);
    assert_eq!(pool.finish(b, false), Settlement::Retry);
    assert_eq!(pool.finish(a, true), Settlement::Stale);
    assert_eq!(pool.finish(b, true), Settlement::Stale);
    assert_eq!(pool.finish(9, true), Settlement::Stale);
    assert_eq!(pool.handlers, vec![HandlerStatus::Completed, HandlerStatus::Failed]);
}

#[test]
fn shutdown_waits_for_in_flight_within_grace() {
    let mut pool = WorkerPool::new();
    let a = pool.pull().unwrap();
    let b = pool.pull().unwrap();
    let c = pool.pull().unwrap();
    pool.cancel(100);
    assert!(!pool.is_stopped());
    pool.tick(104);
    assert_eq!(pool.handlers, vec![HandlerStatus::InFlight; 3]);
    assert_eq!(pool.finish(a, true), Settlement::Acknowledge);
    assert_eq!(pool.finish(b, false), Settlement::Retry);
    pool.tick(105);
    assert!(pool.is_stopped());
    assert_eq!(
        pool.handlers,
        vec![HandlerStatus::Completed, HandlerStatus::Failed, HandlerStatus::Abandoned]
    );
    // a handler that returns after being abandoned is not acknowledged
    assert_eq!(pool.finish(c, true), Settlement::Stale);
    assert_eq!(pool.handlers[c], HandlerStatus::Abandoned);
}

#[test]
fn second_cancel_keeps_first_deadline() {
    let mut pool = WorkerPool::new();
    pool.pull().unwrap();
    pool.cancel(0);
    pool.cancel(50);
    assert_eq!(pool.cancelled_at, Some(0));
    pool.tick(5);
    assert!(pool.is_stopped());
}

#[test]
fn tick_without_cancel_changes_nothing() {
    let mut pool = WorkerPool::new();
    pool.pull().unwrap();
    pool.tick(u64::MAX);
    assert_eq!(pool.handlers, vec![HandlerStatus::InFlight]);
    assert!(!pool.is_stopped());
}

#[test]
fn idle_pool_stops_on_cancel() {
    let mut pool = WorkerPool::new();
    assert!(!pool.is_stopped());
    pool.cancel(3);
    assert!(pool.is_stopped());
}
