use curvine::sender::{
    check_transfer, mark_dequeued, request_status, warns_on_send_failure, ActiveGuard, FuseReqStatus,
    Gauge, WriteOutcome,
};

#[test]
fn mark_dequeued_drops_guard_at_dequeue() {
    let mut g = Gauge::new("test_mark_dequeued_gauge", "test");
    let guard = ActiveGuard::new(&mut g);
    assert_eq!(g.get(), 1, "guard rides the task: +1 in the channel");
    mark_dequeued(&mut g, Some(guard));
    assert_eq!(g.get(), 0, "dequeue decrements before any splice work");
}

#[test]
fn mark_dequeued_none_is_noop() {
    let mut g = Gauge::new("test_mark_dequeued_none", "test");
    mark_dequeued(&mut g, None);
    assert_eq!(g.get(), 0);
}

#[test]
fn guard_of_another_gauge_leaves_this_one_alone() {
    let mut queue = Gauge::new("test_queue_depth", "test");
    let mut other = Gauge::new("test_other_gauge", "test");
    let _own = ActiveGuard::new(&mut queue);
    let foreign = ActiveGuard::new(&mut other);
    assert_eq!(queue.get(), 1);
    mark_dequeued(&mut queue, Some(foreign));
    assert_eq!(queue.get(), 1, "only a guard taken on this gauge releases it");
}

#[test]
fn request_status_follows_delivery() {
    assert_eq!(request_status(FuseReqStatus::Success, WriteOutcome::Success), FuseReqStatus::Success);
    assert_eq!(request_status(FuseReqStatus::Unsupported, WriteOutcome::Success), FuseReqStatus::Unsupported);
    assert_eq!(
        request_status(FuseReqStatus::Success, WriteOutcome::Failed { errno: Some(32) }),
        FuseReqStatus::Error
    );
}

#[test]
fn vanished_requests_are_not_warned_about() {
    assert!(!warns_on_send_failure(Some(libc::ENOENT)));
    assert!(warns_on_send_failure(Some(libc::EPIPE)));
    assert!(warns_on_send_failure(None));
}

#[test]
fn short_transfers_are_errors() {
    assert!(check_transfer(10, 10).is_ok());
    assert_eq!(check_transfer(3, 10).unwrap_err(), "io return value error, res: 3, expect: 10");
}
