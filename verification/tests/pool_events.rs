//! The pool's cancellation decisions and the presentation event surface.

use nox_throttle::control::{ControlCommand, QuotaTarget};
use nox_throttle::events::{find_path_index, resolve_event, CGroupRef, Names, UIEvent};
use nox_throttle::pool::{next_step, PoolModel, WorkerStep};

#[test]
fn worker_exits_once_stop_is_observed() {
    assert_eq!(next_step(false), WorkerStep::Work);
    assert_eq!(next_step(true), WorkerStep::Exit);
}

#[test]
fn stop_request_is_monotonic() {
    let mut m = PoolModel::new(4);
    assert!(!m.stop_requested);
    m.request_stop();
    assert!(m.stop_requested);
    m.request_stop();
    assert!(m.stop_requested);
    assert_eq!(m.total, 4);
}

#[test]
fn join_resolves_once_all_workers_exited() {
    let mut m = PoolModel::new(2);
    m.request_stop();
    m.worker_exited();
    assert_eq!(m.exited, 1);
    m.worker_exited();
    assert_eq!(m.exited, 2);
}

#[test]
fn worker_list_label() {
    assert_eq!(Names::WorkersList.label(), "workers_list");
}

#[test]
fn finds_leaf_by_path() {
    let paths = vec![
        String::from("nox/tokio/worker_0"),
        String::from("nox/tokio/worker_1"),
    ];
    assert_eq!(find_path_index(&paths, "nox/tokio/worker_1"), Some(1));
    assert_eq!(find_path_index(&paths, "nox/tokio/worker_9"), None);
}

#[test]
fn resolves_limit_events() {
    let paths = vec![
        String::from("nox/tokio/worker_0"),
        String::from("nox/tokio/worker_1"),
    ];
    let aggregate = UIEvent::CPULimitChanged(CGroupRef::Tokio, 40);
    assert_eq!(
        resolve_event(&aggregate, &paths),
        Some(ControlCommand::SetGroupQuota(QuotaTarget::Aggregate, 40))
    );
    let worker = UIEvent::CPULimitChanged(
        CGroupRef::Worker(String::from("nox/tokio/worker_1")),
        65,
    );
    assert_eq!(
        resolve_event(&worker, &paths),
        Some(ControlCommand::SetGroupQuota(QuotaTarget::Leaf(1), 65))
    );
    let unknown = UIEvent::CPULimitChanged(CGroupRef::Worker(String::from("elsewhere")), 65);
    assert_eq!(resolve_event(&unknown, &paths), None);
}
