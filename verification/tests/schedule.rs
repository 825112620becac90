use emulsion::schedule::WakeRequest;
use emulsion::schedule::aggregate_control_flow;
use emulsion::schedule::fold_wake_requests;
use emulsion::schedule::normalize_control_flow;

const T: u64 = 1_000_000;

#[test]
fn aggregate_prefers_earlier_deadline() {
    let (r, replaced) =
        aggregate_control_flow(WakeRequest::WaitUntil(T + 50_000), WakeRequest::WaitUntil(T + 10_000));
    assert_eq!(r, WakeRequest::WaitUntil(T + 10_000));
    assert!(replaced);
}

#[test]
fn aggregate_keeps_earlier_deadline() {
    let (r, replaced) =
        aggregate_control_flow(WakeRequest::WaitUntil(T + 10_000), WakeRequest::WaitUntil(T + 50_000));
    assert_eq!(r, WakeRequest::WaitUntil(T + 10_000));
    assert!(!replaced);
}

#[test]
fn aggregate_poll_dominates_deadline() {
    let (r, replaced) = aggregate_control_flow(WakeRequest::WaitUntil(T), WakeRequest::Poll);
    assert_eq!(r, WakeRequest::Poll);
    assert!(replaced);
    let (r, replaced) = aggregate_control_flow(WakeRequest::Poll, WakeRequest::WaitUntil(T));
    assert_eq!(r, WakeRequest::Poll);
    assert!(!replaced);
}

#[test]
fn aggregate_wait_never_weakens() {
    let (r, replaced) = aggregate_control_flow(WakeRequest::WaitUntil(T), WakeRequest::Wait);
    assert_eq!(r, WakeRequest::WaitUntil(T));
    assert!(!replaced);
    let (r, replaced) = aggregate_control_flow(WakeRequest::Wait, WakeRequest::WaitUntil(T));
    assert_eq!(r, WakeRequest::WaitUntil(T));
    assert!(replaced);
}

#[test]
fn three_reports_aggregate_to_earliest() {
    let reports = vec![
        WakeRequest::WaitUntil(T + 50_000),
        WakeRequest::Wait,
        WakeRequest::WaitUntil(T + 10_000),
    ];
    let r = fold_wake_requests(WakeRequest::Wait, &reports);
    assert_eq!(r, WakeRequest::WaitUntil(T + 10_000));
}

#[test]
fn any_poll_wins_regardless_of_order() {
    let orders = vec![
        vec![WakeRequest::Poll, WakeRequest::WaitUntil(T + 50_000), WakeRequest::Wait],
        vec![WakeRequest::WaitUntil(T + 50_000), WakeRequest::Poll, WakeRequest::Wait],
        vec![WakeRequest::WaitUntil(T + 50_000), WakeRequest::Wait, WakeRequest::Poll],
    ];
    for reports in orders {
        let r = fold_wake_requests(WakeRequest::Wait, &reports);
        assert_eq!(r, WakeRequest::Poll);
    }
}

#[test]
fn empty_pass_keeps_target() {
    let reports: Vec<WakeRequest> = Vec::new();
    let r = fold_wake_requests(WakeRequest::WaitUntil(T), &reports);
    assert_eq!(r, WakeRequest::WaitUntil(T));
}

#[test]
fn near_future_deadline_normalizes_to_immediate() {
    let now: u64 = T;
    assert_eq!(
        normalize_control_flow(WakeRequest::WaitUntil(now + 50), now),
        WakeRequest::Poll
    );
}

#[test]
fn normalization_boundary() {
    let now: u64 = T;
    assert_eq!(
        normalize_control_flow(WakeRequest::WaitUntil(now + 99), now),
        WakeRequest::Poll
    );
    assert_eq!(
        normalize_control_flow(WakeRequest::WaitUntil(now + 100), now),
        WakeRequest::WaitUntil(now + 100)
    );
}

#[test]
fn past_deadline_normalizes_to_immediate() {
    let now: u64 = T;
    assert_eq!(
        normalize_control_flow(WakeRequest::WaitUntil(now - 1), now),
        WakeRequest::Poll
    );
}

#[test]
fn normalization_leaves_other_targets_alone() {
    let now: u64 = T;
    assert_eq!(normalize_control_flow(WakeRequest::Wait, now), WakeRequest::Wait);
    assert_eq!(normalize_control_flow(WakeRequest::Poll, now), WakeRequest::Poll);
}
