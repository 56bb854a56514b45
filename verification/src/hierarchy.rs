//! The static resource-group hierarchy: one root group, one aggregate group
//! under it, and one leaf group per worker under the aggregate. The shape is
//! fixed at construction and never changes; leaf groups are switched into
//! thread mode so that individual threads can be placed in them.

use vstd::prelude::*;

use cgroups_rs::fs::Cgroup;

use crate::cgfs;
use crate::text::dec_chars;

verus! {

/// The hierarchical path of the root group.
pub open spec fn root_path_chars() -> Seq<char> {
    seq!['n', 'o', 'x']
}

/// The hierarchical path of the aggregate group spanning all leaf groups.
pub open spec fn aggregate_path_chars() -> Seq<char> {
    seq!['n', 'o', 'x', '/', 't', 'o', 'k', 'i', 'o']
}

/// The hierarchical path of the leaf group of one worker index.
pub open spec fn leaf_path_chars(i: int) -> Seq<char> {
    aggregate_path_chars() + seq!['/', 'w', 'o', 'r', 'k', 'e', 'r', '_'] + dec_chars(i)
}

/// The path of the root group.
pub fn root_path() -> (s: String)
    ensures
        s@ == root_path_chars(),
{
    proof {
        reveal_strlit("nox");
        assert("nox"@ =~= root_path_chars());
    }
    String::from_str("nox")
}

/// The path of the aggregate group.
pub fn aggregate_path() -> (s: String)
    ensures
        s@ == aggregate_path_chars(),
{
    proof {
        reveal_strlit("nox/tokio");
        assert("nox/tokio"@ =~= aggregate_path_chars());
    }
    String::from_str("nox/tokio")
}

/// The path of the leaf group of one worker index.
pub fn leaf_path(i: usize) -> (s: String)
    ensures
        s@ == leaf_path_chars(i as int),
{
    proof {
        reveal_strlit("nox/tokio/worker_");
        assert("nox/tokio/worker_"@ =~= aggregate_path_chars() + seq![
            '/',
            'w',
            'o',
            'r',
            'k',
            'e',
            'r',
            '_',
        ]);
    }
    let mut s = String::from_str("nox/tokio/worker_");
    let d = crate::text::u64_to_dec(i as u64);
    s.append(d.as_str());
    proof {
        assert(s@ =~= leaf_path_chars(i as int));
    }
    s
}

/// The controllers every restricted group registers.
pub open spec fn cpuset_chars() -> Seq<char> {
    seq!['c', 'p', 'u', 's', 'e', 't']
}

/// The name of the cpu controller.
pub open spec fn cpu_chars() -> Seq<char> {
    seq!['c', 'p', 'u']
}

/// The controller set of the aggregate and leaf groups, in the order the
/// groups register them.
pub fn controller_names() -> (v: Vec<String>)
    ensures
        v@.len() == 2,
        v@[0]@ == cpuset_chars(),
        v@[1]@ == cpu_chars(),
{
    proof {
        reveal_strlit("cpuset");
        reveal_strlit("cpu");
        assert("cpuset"@ =~= cpuset_chars());
        assert("cpu"@ =~= cpu_chars());
    }
    let mut v: Vec<String> = Vec::new();
    v.push(String::from_str("cpuset"));
    v.push(String::from_str("cpu"));
    v
}

/// The layout of the whole hierarchy: every path the builder will create.
pub struct HierarchyPlan {
    /// Path of the root group.
    pub root: String,
    /// Path of the aggregate group, child of the root.
    pub aggregate: String,
    /// Paths of the leaf groups, children of the aggregate, index for index.
    pub leaves: Vec<String>,
}

/// A plan that lays the groups out as the design fixes them.
pub open spec fn plan_wf(p: HierarchyPlan, count: int) -> bool {
    &&& p.root@ == root_path_chars()
    &&& p.aggregate@ == aggregate_path_chars()
    &&& p.leaves@.len() == count
    &&& forall|i: int| 0 <= i < count ==> (#[trigger] p.leaves@[i])@ == leaf_path_chars(i)
}

/// Computes the paths of the root group, the aggregate group and one leaf
/// group per worker index.
pub fn hierarchy_plan(count: usize) -> (p: HierarchyPlan)
    ensures
        plan_wf(p, count as int),
{
    let root = root_path();
    let aggregate = aggregate_path();
    let mut leaves: Vec<String> = Vec::new();
    let mut i: usize = 0;
    while i < count
        invariant
            0 <= i <= count,
            leaves@.len() == i,
            forall|j: int| 0 <= j < i ==> (#[trigger] leaves@[j])@ == leaf_path_chars(j),
        decreases count - i,
    {
        leaves.push(leaf_path(i));
        i = i + 1;
    }
    HierarchyPlan { root, aggregate, leaves }
}

/// The position of the last separator of a path, or -1 where it has none.
pub open spec fn last_slash_idx(p: Seq<char>) -> int
    decreases p.len(),
{
    if p.len() == 0 {
        -1
    } else if p.last() == '/' {
        p.len() - 1
    } else {
        last_slash_idx(p.drop_last())
    }
}

/// What `last_slash_idx` finds: either no separator at all, or the index
/// of a separator with none after it.
pub proof fn lemma_last_slash_idx(p: Seq<char>)
    ensures
        -1 <= last_slash_idx(p) < p.len(),
        last_slash_idx(p) == -1 ==> (forall|j: int| 0 <= j < p.len() ==> #[trigger] p[j] != '/'),
        last_slash_idx(p) >= 0 ==> {
            let i = last_slash_idx(p);
            &&& i < p.len()
            &&& p[i] == '/'
            &&& forall|j: int| i < j < p.len() ==> #[trigger] p[j] != '/'
        },
    decreases p.len(),
{
    if p.len() > 0 && p.last() != '/' {
        let t = p.drop_last();
        lemma_last_slash_idx(t);
        assert(forall|j: int| 0 <= j < t.len() ==> #[trigger] t[j] == p[j]);
        if last_slash_idx(t) == -1 {
            assert forall|j: int| 0 <= j < p.len() implies #[trigger] p[j] != '/' by {
                if j < p.len() - 1 {
                    assert(t[j] != '/');
                } else {
                    assert(p[j] == p.last());
                }
            }
        } else {
            let i = last_slash_idx(t);
            assert(p[i] == t[i]);
            assert forall|j: int| i < j < p.len() implies #[trigger] p[j] != '/' by {
                if j < p.len() - 1 {
                    assert(t[j] != '/');
                } else {
                    assert(p[j] == p.last());
                }
            }
        }
    }
}

/// The parent of a group's path: everything before the last separator, as
/// the hierarchy derives a parent by dropping the path's last segment.
/// A path without a separator — the hierarchy root's empty path, or a
/// group directly under it — has the empty parent path.
pub open spec fn spec_parent_of(p: Seq<char>) -> Seq<char> {
    if last_slash_idx(p) < 0 {
        Seq::empty()
    } else {
        p.subrange(0, last_slash_idx(p))
    }
}

/// Derives the parent path of a group's path.
pub fn parent_of_path(p: &str) -> (r: String)
    ensures
        r@ == spec_parent_of(p@),
{
    let len = p.unicode_len();
    let mut i: usize = len;
    while i > 0
        invariant
            len == p@.len(),
            0 <= i <= len,
            forall|j: int| i as int <= j < len ==> p@[j] != '/',
        decreases i,
    {
        if p.get_char(i - 1) == '/' {
            proof {
                lemma_last_slash_idx(p@);
                assert(p@[i as int - 1] == '/');
                if last_slash_idx(p@) == -1 {
                    assert(p@[i as int - 1] != '/');
                    assert(false);
                }
                let k = last_slash_idx(p@);
                if k < i as int - 1 {
                    assert(i as int - 1 < p@.len());
                    assert(p@[i as int - 1] != '/');
                    assert(false);
                }
                if k > i as int - 1 {
                    assert(i as int <= k < p@.len());
                    assert(p@[k] != '/');
                    assert(false);
                }
            }
            let r = String::from_str(p.substring_char(0, i - 1));
            proof {
                assert(r@ == spec_parent_of(p@));
            }
            return r;
        }
        i = i - 1;
    }
    proof {
        lemma_last_slash_idx(p@);
        if last_slash_idx(p@) >= 0 {
            let k = last_slash_idx(p@);
            assert(p@[k] != '/');
            assert(false);
        }
        assert(Seq::<char>::empty() =~= spec_parent_of(p@));
    }
    String::new()
}

/// A hierarchy-creation failure: unrecoverable, reported with the path of
/// the group whose creation failed. Groups created before the failure are
/// left in place; there is no rollback.
pub struct SetupError {
    /// The path of the group that could not be created or configured.
    pub path: String,
    /// What the resource-group interface reported.
    pub detail: String,
}

/// Whether a path is one the builder plans for `count` workers.
pub open spec fn planned_path(p: Seq<char>, count: int) -> bool {
    ||| p == root_path_chars()
    ||| p == aggregate_path_chars()
    ||| exists|i: int| 0 <= i < count && p == #[trigger] leaf_path_chars(i)
}

impl SetupError {
    /// The diagnostic the failure is reported with.
    pub fn message(&self) -> (m: String)
        ensures
            m@ == "cannot create group "@ + self.path@ + ": "@ + self.detail@,
    {
        let mut m = String::from_str("cannot create group ");
        m.append(self.path.as_str());
        m.append(": ");
        m.append(self.detail.as_str());
        m
    }
}

/// Handles to the created hierarchy: the root group, the aggregate group
/// under it, and one leaf group per worker under the aggregate.
pub struct CGroups {
    /// The root group.
    pub nox: Cgroup,
    /// The aggregate group spanning all leaf groups.
    pub tokio: Cgroup,
    /// The leaf groups, one per worker index.
    pub workers: Vec<Cgroup>,
}

impl CGroups {
    /// Builds the whole hierarchy: the root group, the aggregate group
    /// restricted to the cpuset and cpu controllers, and one equally
    /// restricted leaf group per worker, each switched into thread mode.
    /// The first failure aborts the build and names the failing path;
    /// groups already created stay.
    pub fn new(workers: usize) -> (r: Result<CGroups, SetupError>)
        ensures
            r matches Ok(c) ==> c.workers@.len() == workers as int,
            r matches Err(e) ==> planned_path(e.path@, workers as int),
    {
        let plan = hierarchy_plan(workers);
        let nox = match cgfs::cg_create(&plan.root) {
            Ok(g) => g,
            Err(detail) => {
                return Err(SetupError { path: plan.root, detail });
            },
        };
        let controllers = controller_names();
        let tokio = match cgfs::cg_create_with_controllers(&plan.aggregate, &controllers) {
            Ok(g) => g,
            Err(detail) => {
                return Err(SetupError { path: plan.aggregate, detail });
            },
        };
        let mut leaf_groups: Vec<Cgroup> = Vec::new();
        let mut i: usize = 0;
        while i < workers
            invariant
                0 <= i <= workers,
                leaf_groups@.len() == i,
                plan_wf(plan, workers as int),
                controllers@.len() == 2,
            decreases workers - i,
        {
            let path = &plan.leaves[i];
            let group = match cgfs::cg_create_with_controllers(path, &controllers) {
                Ok(g) => g,
                Err(detail) => {
                    return Err(SetupError { path: path.clone(), detail });
                },
            };
            match cgfs::cg_set_threaded(&group) {
                Ok(_) => {},
                Err(detail) => {
                    return Err(SetupError { path: path.clone(), detail });
                },
            }
            leaf_groups.push(group);
            i = i + 1;
        }
        Ok(CGroups { nox, tokio, workers: leaf_groups })
    }
}

} // verus!
