//! The control loop: a two-state machine (running, stopped) driven by
//! text lines. A line is either `stop`, which requests pool shutdown and
//! ends the loop, or `<target> <percent>`, which converts the percentage
//! and applies it to the targeted group, or anything else, which is
//! reported as invalid input and changes nothing. The target token is
//! resolved once, at parse time, into a tagged variant: the aggregate
//! group, or a leaf group by index.

use vstd::prelude::*;

use crate::hierarchy::CGroups;
use crate::quota::{spec_setting_for, QuotaError, QuotaSetting, PERCENT_MAX};
use crate::report::StatusReport;
use crate::text::{all_digits, dec_value, first_space_idx};

verus! {

/// The group a quota command addresses: the aggregate group spanning the
/// whole pool, or one leaf group by worker index.
#[derive(Clone, Copy, PartialEq, Eq, Structural, Debug)]
pub enum QuotaTarget {
    /// The aggregate group.
    Aggregate,
    /// The leaf group of one worker index.
    Leaf(usize),
}

/// One parsed command, consumed immediately by the loop.
#[derive(Clone, Copy, PartialEq, Eq, Structural, Debug)]
pub enum ControlCommand {
    /// Set the quota of the targeted group to the percentage.
    SetGroupQuota(QuotaTarget, u64),
    /// Stop the worker pool and end the loop.
    Stop,
}

/// The stop keyword.
pub open spec fn stop_chars() -> Seq<char> {
    seq!['s', 't', 'o', 'p']
}

/// The token that addresses the aggregate group.
pub open spec fn aggregate_chars() -> Seq<char> {
    seq!['a', 'g', 'g', 'r', 'e', 'g', 'a', 't', 'e']
}

/// The target token of a line with a space: everything before the first
/// space.
pub open spec fn target_part(s: Seq<char>) -> Seq<char> {
    s.subrange(0, first_space_idx(s))
}

/// The percentage text of a line with a space: everything after the first
/// space.
pub open spec fn percent_part(s: Seq<char>) -> Seq<char> {
    s.subrange(first_space_idx(s) + 1, s.len() as int)
}

/// Whether a token is a well-formed target: the aggregate token, or a leaf
/// index that fits the machine.
pub open spec fn target_ok(t: Seq<char>) -> bool {
    ||| t == aggregate_chars()
    ||| (t.len() > 0 && all_digits(t) && dec_value(t) <= usize::MAX)
}

/// The target a well-formed token denotes.
pub open spec fn spec_target(t: Seq<char>) -> QuotaTarget {
    if t == aggregate_chars() {
        QuotaTarget::Aggregate
    } else {
        QuotaTarget::Leaf(dec_value(t) as usize)
    }
}

/// Whether a line is a well-formed quota command: a well-formed target, a
/// space, and a percentage that fits the machine.
pub open spec fn valid_quota_line(s: Seq<char>) -> bool {
    &&& first_space_idx(s) >= 0
    &&& target_ok(target_part(s))
    &&& percent_part(s).len() > 0
    &&& all_digits(percent_part(s))
    &&& dec_value(percent_part(s)) <= u64::MAX
}

/// What a line parses to: the stop command, a quota command, or nothing.
pub open spec fn spec_parse(s: Seq<char>) -> Option<ControlCommand> {
    if s == stop_chars() {
        Some(ControlCommand::Stop)
    } else if valid_quota_line(s) {
        Some(
            ControlCommand::SetGroupQuota(
                spec_target(target_part(s)),
                dec_value(percent_part(s)) as u64,
            ),
        )
    } else {
        None
    }
}

/// Parses one line: `stop`, or `<target> <percent>` with the target either
/// the aggregate token or a leaf index.
pub fn parse_command(line: &str) -> (r: Option<ControlCommand>)
    ensures
        r == spec_parse(line@),
{
    proof {
        reveal_strlit("stop");
        assert("stop"@ =~= stop_chars());
    }
    if crate::text::str_eq(line, "stop") {
        return Some(ControlCommand::Stop);
    }
    let space = match crate::text::find_first_space(line) {
        Some(i) => i,
        None => {
            return None;
        },
    };
    proof {
        crate::text::lemma_first_space_idx(line@);
    }
    let len = line.unicode_len();
    let target_text = line.substring_char(0, space);
    let percent_text = line.substring_char(space + 1, len);
    proof {
        assert(target_text@ == target_part(line@));
        assert(percent_text@ == percent_part(line@));
    }
    let target = if crate::text::str_eq(target_text, "aggregate") {
        proof {
            reveal_strlit("aggregate");
            assert("aggregate"@ =~= aggregate_chars());
        }
        QuotaTarget::Aggregate
    } else {
        proof {
            reveal_strlit("aggregate");
            assert("aggregate"@ =~= aggregate_chars());
        }
        let index = match crate::text::parse_u64(target_text) {
            Some(v) => v,
            None => {
                return None;
            },
        };
        if index > usize::MAX as u64 {
            return None;
        }
        QuotaTarget::Leaf(index as usize)
    };
    let percent = match crate::text::parse_u64(percent_text) {
        Some(p) => p,
        None => {
            return None;
        },
    };
    Some(ControlCommand::SetGroupQuota(target, percent))
}

/// The diagnostic for a rejected line: the line echoed in brackets and
/// quotes.
pub open spec fn spec_invalid_text(line: Seq<char>) -> Seq<char> {
    "invalid input: [\""@ + line + "\"]"@
}

/// Renders the invalid-input diagnostic, echoing the line verbatim.
pub fn invalid_input_text(line: &str) -> (m: String)
    ensures
        m@ == spec_invalid_text(line@),
{
    let mut m = String::from_str("invalid input: [\"");
    m.append(line);
    m.append("\"]");
    m
}

/// What the loop decides to do with one line.
#[derive(Clone, Copy, PartialEq, Eq, Structural, Debug)]
pub enum LineAction {
    /// Apply the percentage to the targeted group, then report it.
    Apply(QuotaTarget, u64),
    /// Stop the pool and end the loop.
    Stop,
    /// Reject the line; nothing changes.
    Reject,
}

/// Whether a target exists under the current leaf-group count.
pub open spec fn target_in_range(t: QuotaTarget, leaves: int) -> bool {
    match t {
        QuotaTarget::Aggregate => true,
        QuotaTarget::Leaf(i) => (i as int) < leaves,
    }
}

/// The decision for one line under a given leaf-group count: quota
/// commands whose target is out of range, or whose percentage is too large
/// for the microsecond arithmetic, are rejected like unparsable lines.
pub open spec fn spec_decide(s: Seq<char>, leaves: int) -> LineAction {
    match spec_parse(s) {
        Some(ControlCommand::Stop) => LineAction::Stop,
        Some(ControlCommand::SetGroupQuota(t, p)) => {
            if target_in_range(t, leaves) && p <= PERCENT_MAX {
                LineAction::Apply(t, p)
            } else {
                LineAction::Reject
            }
        },
        None => LineAction::Reject,
    }
}

/// Decides what to do with one line.
pub fn decide(line: &str, leaves: usize) -> (act: LineAction)
    ensures
        act == spec_decide(line@, leaves as int),
{
    match parse_command(line) {
        Some(ControlCommand::Stop) => LineAction::Stop,
        Some(ControlCommand::SetGroupQuota(t, p)) => {
            let in_range = match t {
                QuotaTarget::Aggregate => true,
                QuotaTarget::Leaf(i) => i < leaves,
            };
            if in_range && p <= PERCENT_MAX {
                LineAction::Apply(t, p)
            } else {
                LineAction::Reject
            }
        },
        None => LineAction::Reject,
    }
}

/// The loop's view of the quota state: whether it still runs, and the last
/// setting successfully applied to each group. Writes are last-write-wins;
/// a rejected or failed command leaves every setting as it was.
pub struct ControlModel {
    /// Whether the loop still accepts commands.
    pub running: bool,
    /// The last setting applied to the aggregate group.
    pub aggregate_quota: Option<QuotaSetting>,
    /// The last setting applied to each leaf group, index for index.
    pub leaf_quotas: Vec<Option<QuotaSetting>>,
}

impl ControlModel {
    /// A fresh model for a pool with `leaves` leaf groups: running, with
    /// no setting applied anywhere yet.
    pub fn new(leaves: usize) -> (m: ControlModel)
        ensures
            m.running,
            m.aggregate_quota.is_none(),
            m.leaf_quotas@.len() == leaves as int,
            forall|i: int| 0 <= i < leaves as int ==> (#[trigger] m.leaf_quotas@[i]).is_none(),
    {
        let mut leaf_quotas: Vec<Option<QuotaSetting>> = Vec::new();
        let mut i: usize = 0;
        while i < leaves
            invariant
                0 <= i <= leaves,
                leaf_quotas@.len() == i,
                forall|k: int| 0 <= k < i as int ==> (#[trigger] leaf_quotas@[k]).is_none(),
            decreases leaves - i,
        {
            leaf_quotas.push(None);
            i = i + 1;
        }
        ControlModel { running: true, aggregate_quota: None, leaf_quotas }
    }
}

/// The quota settings after one successful write to leaf group `i`: the
/// new setting replaces whatever was there; no other group changes.
pub open spec fn leaf_quotas_after(
    qs: Seq<Option<QuotaSetting>>,
    i: int,
    percent: int,
) -> Seq<Option<QuotaSetting>> {
    qs.update(i, Some(spec_setting_for(percent)))
}

/// Last write wins: writing a quota to a group and then writing another
/// fully overwrites the first; the state afterwards is exactly the state
/// after the second write alone, and the group holds the second setting.
pub proof fn lemma_last_write_wins(qs: Seq<Option<QuotaSetting>>, i: int, p1: int, p2: int)
    requires
        0 <= i < qs.len(),
    ensures
        leaf_quotas_after(leaf_quotas_after(qs, i, p1), i, p2) =~= leaf_quotas_after(qs, i, p2),
        leaf_quotas_after(leaf_quotas_after(qs, i, p1), i, p2)[i] == Some(spec_setting_for(p2)),
{
}

/// What happened to one line, as handed back to the caller driving the
/// loop.
pub enum LineOutcome {
    /// The quota was written; the setting applied, and the attempt to read
    /// the group back for reporting.
    Applied(QuotaTarget, QuotaSetting, Result<StatusReport, QuotaError>),
    /// The quota write failed; nothing changed, the loop goes on.
    WriteFailed(QuotaTarget, QuotaError),
    /// The line was rejected, with its diagnostic; nothing changed.
    Rejected(String),
    /// The pool was asked to stop; the loop is over.
    Stopped,
}

/// Both models hold the same quota settings.
pub open spec fn quotas_unchanged(after: ControlModel, before: ControlModel) -> bool {
    &&& after.aggregate_quota == before.aggregate_quota
    &&& after.leaf_quotas@ == before.leaf_quotas@
}

/// The model after one successful write: the targeted group holds the new
/// setting, every other setting is as it was, and the loop still runs.
pub open spec fn model_after_apply(
    after: ControlModel,
    before: ControlModel,
    t: QuotaTarget,
    s: QuotaSetting,
) -> bool {
    &&& after.running
    &&& match t {
        QuotaTarget::Aggregate => {
            &&& after.aggregate_quota == Some(s)
            &&& after.leaf_quotas@ == before.leaf_quotas@
        },
        QuotaTarget::Leaf(i) => {
            &&& after.leaf_quotas@ == before.leaf_quotas@.update(i as int, Some(s))
            &&& after.aggregate_quota == before.aggregate_quota
        },
    }
}

/// Handles one line against the hierarchy: decides, applies the quota
/// where the decision says so, reads the group back, and updates the
/// model. Only a successful write changes the model; the `stop` line ends
/// the loop.
pub fn handle_line(groups: &CGroups, model: &mut ControlModel, line: &str) -> (out: LineOutcome)
    requires
        old(model).running,
        old(model).leaf_quotas@.len() == groups.workers@.len(),
    ensures
        final(model).leaf_quotas@.len() == old(model).leaf_quotas@.len(),
        match out {
            LineOutcome::Stopped => {
                &&& spec_decide(line@, old(model).leaf_quotas@.len() as int) == LineAction::Stop
                &&& !final(model).running
                &&& quotas_unchanged(*final(model), *old(model))
            },
            LineOutcome::Rejected(m) => {
                &&& spec_decide(line@, old(model).leaf_quotas@.len() as int) == LineAction::Reject
                &&& m@ == spec_invalid_text(line@)
                &&& final(model).running
                &&& quotas_unchanged(*final(model), *old(model))
            },
            LineOutcome::WriteFailed(t, _e) => {
                &&& spec_decide(line@, old(model).leaf_quotas@.len() as int) matches
                    LineAction::Apply(t2, _p) && t2 == t
                &&& final(model).running
                &&& quotas_unchanged(*final(model), *old(model))
            },
            LineOutcome::Applied(t, s, rep) => {
                &&& spec_decide(line@, old(model).leaf_quotas@.len() as int) matches
                    LineAction::Apply(t2, p) && t2 == t && s == spec_setting_for(p as int)
                &&& model_after_apply(*final(model), *old(model), t, s)
                &&& rep matches Ok(r) ==> crate::report::report_consistent(r)
            },
        },
{
    let leaves = model.leaf_quotas.len();
    let act = decide(line, leaves);
    match act {
        LineAction::Stop => {
            model.running = false;
            LineOutcome::Stopped
        },
        LineAction::Reject => {
            LineOutcome::Rejected(invalid_input_text(line))
        },
        LineAction::Apply(t, p) => {
            let group = match t {
                QuotaTarget::Aggregate => &groups.tokio,
                QuotaTarget::Leaf(i) => &groups.workers[i],
            };
            let ctrl = match crate::cgfs::cpu_controller_of(group) {
                Some(c) => c,
                None => {
                    let detail = String::from_str("group has no cpu controller");
                    return LineOutcome::WriteFailed(t, QuotaError { detail });
                },
            };
            match crate::quota::set_cpu_limit(ctrl, p) {
                Ok(setting) => {
                    match t {
                        QuotaTarget::Aggregate => {
                            model.aggregate_quota = Some(setting);
                        },
                        QuotaTarget::Leaf(i) => {
                            model.leaf_quotas.set(i, Some(setting));
                        },
                    }
                    let rep = crate::report::report(group);
                    LineOutcome::Applied(t, setting, rep)
                },
                Err(e) => LineOutcome::WriteFailed(t, e),
            }
        },
    }
}

} // verus!
