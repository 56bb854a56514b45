//! The event surface between the core and a presentation layer. The core
//! emits one event when assignment completes, carrying the leaf-group
//! paths, so a front end can render one control per leaf group; it
//! accepts one event per limit change, which it resolves to a quota
//! command for the targeted group.

use vstd::prelude::*;

use crate::control::{ControlCommand, QuotaTarget};

verus! {

/// An event the core emits to the presentation layer.
pub enum ControlEvent {
    /// Assignment is complete; one leaf-group path per worker, in index
    /// order.
    WorkersCreated(Vec<String>),
}

/// A reference to one group, as the presentation layer addresses it.
#[derive(Debug, Clone)]
pub enum CGroupRef {
    /// The aggregate group spanning the whole pool.
    Tokio,
    /// A leaf group, by its path.
    Worker(String),
}

/// An event the presentation layer sends to the core.
#[derive(Debug, Clone)]
pub enum UIEvent {
    /// The limit of one group was changed to a percentage.
    CPULimitChanged(CGroupRef, usize),
}

/// The names under which the presentation layer registers its views.
#[derive(Debug, Clone)]
pub enum Names {
    /// The list view holding one entry per leaf group.
    WorkersList,
}

impl Names {
    /// The registered name.
    pub fn label(&self) -> (r: String)
        ensures
            r@ == "workers_list"@,
    {
        match self {
            Names::WorkersList => String::from_str("workers_list"),
        }
    }
}

/// Finds the first leaf group with the given path.
pub fn find_path_index(paths: &Vec<String>, p: &str) -> (r: Option<usize>)
    ensures
        match r {
            Some(i) => i < paths@.len() && paths@[i as int]@ == p@ && (forall|j: int|
                0 <= j < i ==> (#[trigger] paths@[j])@ != p@),
            None => forall|j: int| 0 <= j < paths@.len() ==> (#[trigger] paths@[j])@ != p@,
        },
{
    let mut i: usize = 0;
    while i < paths.len()
        invariant
            0 <= i <= paths@.len(),
            forall|j: int| 0 <= j < i ==> (#[trigger] paths@[j])@ != p@,
        decreases paths@.len() - i,
    {
        if crate::text::str_eq(paths[i].as_str(), p) {
            return Some(i);
        }
        i = i + 1;
    }
    None
}

/// Resolves a limit-change event to the quota command it stands for: the
/// aggregate reference maps to the aggregate target, a worker reference to
/// the leaf group whose path it names. An unknown path resolves to
/// nothing.
pub fn resolve_event(event: &UIEvent, leaf_paths: &Vec<String>) -> (r: Option<ControlCommand>)
    ensures
        match event {
            UIEvent::CPULimitChanged(CGroupRef::Tokio, pct) => r == Some(
                ControlCommand::SetGroupQuota(QuotaTarget::Aggregate, *pct as u64),
            ),
            UIEvent::CPULimitChanged(CGroupRef::Worker(path), pct) => match r {
                Some(cmd) => exists|i: usize|
                    {
                        &&& (i as int) < leaf_paths@.len()
                        &&& (#[trigger] leaf_paths@[i as int])@ == path@
                        &&& cmd == ControlCommand::SetGroupQuota(
                            QuotaTarget::Leaf(i),
                            *pct as u64,
                        )
                    },
                None => forall|j: int|
                    0 <= j < leaf_paths@.len() ==> (#[trigger] leaf_paths@[j])@ != path@,
            },
        },
{
    match event {
        UIEvent::CPULimitChanged(CGroupRef::Tokio, pct) => Some(
            ControlCommand::SetGroupQuota(QuotaTarget::Aggregate, *pct as u64),
        ),
        UIEvent::CPULimitChanged(CGroupRef::Worker(path), pct) => {
            match find_path_index(leaf_paths, path.as_str()) {
                Some(i) => Some(ControlCommand::SetGroupQuota(QuotaTarget::Leaf(i), *pct as u64)),
                None => None,
            }
        },
    }
}

} // verus!
