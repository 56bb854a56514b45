//! Status readback for one group: parent linkage, attached thread
//! identifiers, and the cpu controller's period, quota and derived
//! percentage. The read has no side effects. Sentinels replace absent
//! values: "no parent" at the hierarchy root, "no tasks" for an empty
//! group, and "no limit" for a non-positive quota, which by convention
//! means unrestricted.

use vstd::prelude::*;

use cgroups_rs::fs::Cgroup;

use crate::cgfs;
use crate::quota::QuotaError;
use crate::text::{dec_chars, join_dec};

verus! {

/// The parent line: the parent's path, or a sentinel at the root.
pub open spec fn spec_parent_text(p: Seq<char>) -> Seq<char> {
    if p.len() == 0 {
        "no parent"@
    } else {
        p
    }
}

/// The tasks line: the attached identifiers comma-joined, or a sentinel
/// when the group holds none.
pub open spec fn spec_tasks_text(ids: Seq<u64>) -> Seq<char> {
    if ids.len() == 0 {
        "no tasks"@
    } else {
        join_dec(ids)
    }
}

/// The derived percentage of a period/quota pair: the share of each period
/// the quota grants, in percent, truncated to whole percents.
pub open spec fn spec_derived_percent(quota: int, period: int) -> int {
    quota * 100 / period
}

/// The limit line: the derived percentage followed by a percent sign, or
/// the unrestricted sentinel when the quota is non-positive (or the period
/// unusable).
pub open spec fn spec_limit_text(quota: int, period: int) -> Seq<char> {
    if quota > 0 && period > 0 {
        dec_chars(spec_derived_percent(quota, period)) + seq!['%']
    } else {
        "no limit"@
    }
}

/// Renders the parent line.
pub fn parent_text(p: &String) -> (r: String)
    ensures
        r@ == spec_parent_text(p@),
{
    if p.unicode_len() == 0 {
        String::from_str("no parent")
    } else {
        p.clone()
    }
}

/// Renders the tasks line.
pub fn tasks_text(ids: &Vec<u64>) -> (r: String)
    ensures
        r@ == spec_tasks_text(ids@),
{
    if ids.len() == 0 {
        String::from_str("no tasks")
    } else {
        crate::text::join_ids(ids)
    }
}

/// Renders the limit line.
pub fn limit_text(quota: i64, period: u64) -> (r: String)
    ensures
        r@ == spec_limit_text(quota as int, period as int),
{
    if quota > 0 && period > 0 {
        let pct: u128 = (quota as u128) * 100 / (period as u128);
        let mut r = crate::text::u128_to_dec(pct);
        proof {
            reveal_strlit("%");
            assert("%"@ =~= seq!['%']);
        }
        r.append("%");
        proof {
            assert(r@ =~= spec_limit_text(quota as int, period as int));
        }
        r
    } else {
        String::from_str("no limit")
    }
}

/// The cpu-controller part of a status report.
pub struct ControllerReport {
    /// The filesystem path of the controller.
    pub path: String,
    /// The membership-mode label of the controller's group.
    pub ctype: String,
    /// The configured period, in microseconds.
    pub period_us: u64,
    /// The configured quota, in microseconds; non-positive means
    /// unrestricted.
    pub quota_us: i64,
    /// The rendered limit line.
    pub limit: String,
}

/// A status report for one group. The rendered lines are consistent with
/// the raw values also held by the report.
pub struct StatusReport {
    /// The group's own path as read back, empty for the hierarchy root.
    pub path: String,
    /// The parent path: the group's path with its last segment dropped,
    /// empty at the hierarchy root.
    pub parent_path: String,
    /// The rendered parent line.
    pub parent: String,
    /// The attached thread identifiers as read back.
    pub members: Vec<u64>,
    /// The rendered tasks line.
    pub tasks: String,
    /// The cpu controller's values, where a cpu controller is attached.
    pub controller: Option<ControllerReport>,
}

/// A report whose rendered lines agree with the raw values it holds: the
/// parent and tasks lines are the rendering of the read-back path and
/// membership, and the limit line is the rendering of the read-back
/// quota and period.
pub open spec fn report_consistent(rep: StatusReport) -> bool {
    &&& rep.parent_path@ == crate::hierarchy::spec_parent_of(rep.path@)
    &&& rep.parent@ == spec_parent_text(rep.parent_path@)
    &&& rep.tasks@ == spec_tasks_text(rep.members@)
    &&& match rep.controller {
        Some(c) => c.limit@ == spec_limit_text(c.quota_us as int, c.period_us as int),
        None => true,
    }
}

/// Reads one group back: parent linkage, membership, and, where a cpu
/// controller is attached, its period, quota and derived percentage. A
/// failing controller read is surfaced as a recoverable error.
pub fn report(group: &Cgroup) -> (r: Result<StatusReport, QuotaError>)
    ensures
        r matches Ok(rep) ==> report_consistent(rep),
{
    let own_path = cgfs::cg_path(group);
    let parent_path = crate::hierarchy::parent_of_path(own_path.as_str());
    let parent = parent_text(&parent_path);
    let members = cgfs::cg_thread_ids(group);
    let tasks = tasks_text(&members);
    let controller = match cgfs::cpu_controller_of(group) {
        Some(ctrl) => {
            let quota_us = match cgfs::cpu_quota(ctrl) {
                Ok(q) => q,
                Err(detail) => {
                    return Err(QuotaError { detail });
                },
            };
            let period_us = match cgfs::cpu_period(ctrl) {
                Ok(p) => p,
                Err(detail) => {
                    return Err(QuotaError { detail });
                },
            };
            let ctype = match cgfs::cpu_cgroup_type(ctrl) {
                Ok(t) => t,
                Err(detail) => {
                    return Err(QuotaError { detail });
                },
            };
            let path = cgfs::cpu_path(ctrl);
            let limit = limit_text(quota_us, period_us);
            Some(ControllerReport { path, ctype, period_us, quota_us, limit })
        },
        None => None,
    };
    Ok(StatusReport { path: own_path, parent_path, parent, members, tasks, controller })
}

/// A fresh setting reports the requested percentage back exactly, and a
/// positive request is never mistaken for the unrestricted sentinel: the
/// limit line of the setting written for `percent` is `percent` followed by
/// the percent sign.
pub proof fn lemma_report_reflects_setting(percent: int)
    requires
        1 <= percent <= crate::quota::PERCENT_MAX,
    ensures
        spec_limit_text(
            crate::quota::spec_setting_for(percent).quota_us as int,
            crate::quota::spec_setting_for(percent).period_us as int,
        ) == dec_chars(percent) + seq!['%'],
{
    crate::quota::lemma_quota_exact(percent);
    crate::quota::lemma_set_then_derive(percent);
    let s = crate::quota::spec_setting_for(percent);
    assert(s.quota_us as int > 0);
}

} // verus!
