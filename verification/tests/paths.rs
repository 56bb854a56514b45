//! Hierarchy paths and the report's rendered lines.

use nox_throttle::hierarchy::{
    aggregate_path, controller_names, hierarchy_plan, leaf_path, parent_of_path, root_path,
    SetupError,
};
use nox_throttle::report::{parent_text, tasks_text};

#[test]
fn fixed_paths() {
    assert_eq!(root_path(), "nox");
    assert_eq!(aggregate_path(), "nox/tokio");
    assert_eq!(leaf_path(0), "nox/tokio/worker_0");
    assert_eq!(leaf_path(12), "nox/tokio/worker_12");
}

#[test]
fn plan_lists_every_group() {
    let plan = hierarchy_plan(3);
    assert_eq!(plan.root, "nox");
    assert_eq!(plan.aggregate, "nox/tokio");
    assert_eq!(
        plan.leaves,
        vec!["nox/tokio/worker_0", "nox/tokio/worker_1", "nox/tokio/worker_2"]
    );
}

#[test]
fn restricted_controllers() {
    assert_eq!(controller_names(), vec!["cpuset", "cpu"]);
}

#[test]
fn setup_error_names_failing_path() {
    let e = SetupError {
        path: String::from("nox/tokio"),
        detail: String::from("unsupported controller"),
    };
    assert_eq!(e.message(), "cannot create group nox/tokio: unsupported controller");
}

#[test]
fn parent_is_path_without_last_segment() {
    assert_eq!(parent_of_path("nox/tokio/worker_3"), "nox/tokio");
    assert_eq!(parent_of_path("nox/tokio"), "nox");
    assert_eq!(parent_of_path("nox"), "");
    // the hierarchy root has no parent; the empty path stays empty
    assert_eq!(parent_of_path(""), "");
}

#[test]
fn parent_line_sentinel() {
    assert_eq!(parent_text(&String::new()), "no parent");
    assert_eq!(parent_text(&String::from("nox")), "nox");
}

#[test]
fn tasks_line_sentinel() {
    assert_eq!(tasks_text(&vec![]), "no tasks");
    assert_eq!(tasks_text(&vec![101, 102, 103]), "101,102,103");
    assert_eq!(tasks_text(&vec![7]), "7");
}
