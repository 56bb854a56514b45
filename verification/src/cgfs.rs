//! Trusted bindings to the OS resource-group filesystem, through the
//! cgroups-rs crate. Every function here performs filesystem work whose
//! outcome depends on the machine: the kernel version, the mounted
//! hierarchy, permissions, and what other processes did. The contracts
//! therefore promise nothing about the values read or the success of the
//! writes; the verified callers state what they do with whatever comes
//! back. Errors are rendered to plain text at this boundary.

use vstd::prelude::*;

use cgroups_rs::fs::cgroup::CGROUP_MODE_THREADED;
use cgroups_rs::fs::cpu::CpuController;
use cgroups_rs::fs::Cgroup;
use cgroups_rs::fs::Controller;
use cgroups_rs::CgroupPid;

verus! {

#[verifier::external_type_specification]
#[verifier::external_body]
pub struct ExCgroup(Cgroup);

#[verifier::external_type_specification]
#[verifier::external_body]
pub struct ExCpuController(CpuController);

/// Relies on cgroups_rs::fs::Cgroup::new: creates the group at the given
/// path in the automatically detected hierarchy.
#[verifier::external_body]
pub(crate) fn cg_create(path: &String) -> Result<Cgroup, String> {
    Cgroup::new(cgroups_rs::fs::hierarchies::auto(), path.as_str()).map_err(|e| format!("{}", e))
}

/// Relies on cgroups_rs::fs::Cgroup::new_with_specified_controllers:
/// creates the group at the given path, registering only the named
/// controllers.
#[verifier::external_body]
pub(crate) fn cg_create_with_controllers(path: &String, controllers: &Vec<String>) -> Result<
    Cgroup,
    String,
> {
    Cgroup::new_with_specified_controllers(
        cgroups_rs::fs::hierarchies::auto(),
        path.as_str(),
        Some(controllers.clone()),
    )
        .map_err(|e| format!("{}", e))
}

/// Relies on cgroups_rs::fs::Cgroup::set_cgroup_type: switches the group
/// into thread mode, so that individual threads can be placed in it.
#[verifier::external_body]
pub(crate) fn cg_set_threaded(cg: &Cgroup) -> Result<(), String> {
    cg.set_cgroup_type(CGROUP_MODE_THREADED).map_err(|e| format!("{}", e))
}

/// Relies on cgroups_rs::fs::Cgroup::add_task: moves one thread, by its OS
/// identifier, into the group.
#[verifier::external_body]
pub(crate) fn cg_add_thread(cg: &Cgroup, tid: u64) -> Result<(), String> {
    cg.add_task(CgroupPid::from(tid)).map_err(|e| format!("{}", e))
}

/// Relies on cgroups_rs::fs::Cgroup::tasks: reads back the identifiers of
/// the threads currently attached to the group.
#[verifier::external_body]
pub(crate) fn cg_thread_ids(cg: &Cgroup) -> Vec<u64> {
    cg.tasks().into_iter().map(|p| p.pid).collect()
}

/// Relies on cgroups_rs::fs::Cgroup::path: the path the group handle is
/// located at, empty for the hierarchy root.
#[verifier::external_body]
pub(crate) fn cg_path(cg: &Cgroup) -> String {
    cg.path().to_string()
}

/// Relies on cgroups_rs::fs::Cgroup::controller_of: the cpu controller of
/// the group, where one is attached.
#[verifier::external_body]
pub(crate) fn cpu_controller_of<'a>(cg: &'a Cgroup) -> Option<&'a CpuController> {
    cg.controller_of::<CpuController>()
}

/// Relies on cgroups_rs::fs::Controller::path: the filesystem path of the
/// controller.
#[verifier::external_body]
pub(crate) fn cpu_path(ctrl: &CpuController) -> String {
    ctrl.path().display().to_string()
}

/// Relies on cgroups_rs::fs::Controller::get_cgroup_type: the membership
/// mode label of the controller's group.
#[verifier::external_body]
pub(crate) fn cpu_cgroup_type(ctrl: &CpuController) -> Result<String, String> {
    ctrl.get_cgroup_type().map_err(|e| format!("{}", e))
}

/// Relies on cgroups_rs::fs::cpu::CpuController::set_cfs_quota_and_period:
/// writes both the quota and the period, in microseconds.
#[verifier::external_body]
pub(crate) fn cpu_set_quota_period(ctrl: &CpuController, quota: i64, period: u64) -> Result<
    (),
    String,
> {
    ctrl.set_cfs_quota_and_period(Some(quota), Some(period)).map_err(|e| format!("{}", e))
}

/// Relies on cgroups_rs::fs::cpu::CpuController::cfs_quota: reads back the
/// configured quota in microseconds.
#[verifier::external_body]
pub(crate) fn cpu_quota(ctrl: &CpuController) -> Result<i64, String> {
    ctrl.cfs_quota().map_err(|e| format!("{}", e))
}

/// Relies on cgroups_rs::fs::cpu::CpuController::cfs_period: reads back the
/// configured period in microseconds.
#[verifier::external_body]
pub(crate) fn cpu_period(ctrl: &CpuController) -> Result<u64, String> {
    ctrl.cfs_period().map_err(|e| format!("{}", e))
}

} // verus!
