//! Partitioning the captured worker-thread identifiers into per-leaf-group
//! chunks. With `total` identifiers and `groups` leaf groups, every group
//! receives exactly `floor(total / groups)` identifiers; the chunks are
//! consecutive, disjoint ranges of the identifier list, and identifiers in
//! the remainder past `groups * floor(total / groups)` are never assigned.

use vstd::arithmetic::div_mod::lemma_fundamental_div_mod;
use vstd::arithmetic::mul::lemma_mul_inequality;
use vstd::prelude::*;

use cgroups_rs::fs::Cgroup;

use crate::cgfs;
use crate::hierarchy::{leaf_path, leaf_path_chars, CGroups};

verus! {

/// How many identifiers each leaf group receives.
pub open spec fn spec_chunk_size(total: int, groups: int) -> int {
    total / groups
}

/// The identifiers committed to leaf group `i`.
pub open spec fn spec_chunk(ids: Seq<u64>, groups: int, i: int) -> Seq<u64> {
    let c = spec_chunk_size(ids.len() as int, groups);
    ids.subrange(i * c, i * c + c)
}

/// The chunk ranges stay inside the identifier list: with `c` the chunk
/// size, `groups * c` is at most the number of identifiers.
pub proof fn lemma_chunks_fit(total: int, groups: int)
    requires
        1 <= groups,
        0 <= total,
    ensures
        0 <= spec_chunk_size(total, groups),
        groups * spec_chunk_size(total, groups) <= total,
{
    let c = total / groups;
    lemma_fundamental_div_mod(total, groups);
    assert(total == groups * c + total % groups);
}

/// How many identifiers each leaf group receives.
pub fn chunk_size(total: usize, groups: usize) -> (c: usize)
    requires
        1 <= groups,
    ensures
        c == spec_chunk_size(total as int, groups as int),
{
    total / groups
}

/// Splits the identifier list into one chunk per leaf group: group `i`
/// receives the `i`-th consecutive run of `floor(total / groups)`
/// identifiers. Identifiers past the last full run are left out.
pub fn plan_chunks(ids: &Vec<u64>, groups: usize) -> (plan: Vec<Vec<u64>>)
    requires
        1 <= groups,
    ensures
        plan@.len() == groups as int,
        forall|i: int|
            0 <= i < groups as int ==> (#[trigger] plan@[i])@ == spec_chunk(
                ids@,
                groups as int,
                i,
            ),
{
    let total = ids.len();
    let c = chunk_size(total, groups);
    proof {
        lemma_chunks_fit(total as int, groups as int);
    }
    let mut plan: Vec<Vec<u64>> = Vec::new();
    let mut i: usize = 0;
    while i < groups
        invariant
            1 <= groups,
            total == ids@.len(),
            c == spec_chunk_size(total as int, groups as int),
            groups * c <= total,
            0 <= i <= groups,
            plan@.len() == i,
            forall|k: int|
                0 <= k < i as int ==> (#[trigger] plan@[k])@ == spec_chunk(
                    ids@,
                    groups as int,
                    k,
                ),
        decreases groups - i,
    {
        proof {
            lemma_mul_inequality(i as int + 1, groups as int, c as int);
            assert((i as int + 1) * c == i as int * c + c) by {
                vstd::arithmetic::mul::lemma_mul_is_distributive_add_other_way(
                    c as int,
                    i as int,
                    1,
                );
            }
        }
        let base = i * c;
        let mut chunk: Vec<u64> = Vec::new();
        let mut j: usize = 0;
        while j < c
            invariant
                base == i as int * c,
                base + c <= total == ids@.len(),
                0 <= j <= c,
                chunk@.len() == j,
                forall|t: int| 0 <= t < j as int ==> chunk@[t] == ids@[base as int + t],
            decreases c - j,
        {
            chunk.push(ids[base + j]);
            j = j + 1;
        }
        proof {
            assert(chunk@ =~= spec_chunk(ids@, groups as int, i as int));
        }
        plan.push(chunk);
        i = i + 1;
    }
    plan
}

/// The assignment is a partition of the first `groups * c` identifiers:
/// every group receives exactly `c = floor(total / groups)` identifiers;
/// each identifier of a full run is assigned to the group owning that run;
/// and, the identifiers being distinct, none appears in two groups.
pub proof fn lemma_chunks_partition(ids: Seq<u64>, groups: int)
    requires
        1 <= groups <= ids.len(),
        forall|a: int, b: int| 0 <= a < b < ids.len() ==> #[trigger] ids[a] != #[trigger] ids[b],
    ensures
        forall|i: int|
            0 <= i < groups ==> (#[trigger] spec_chunk(ids, groups, i)).len()
                == spec_chunk_size(ids.len() as int, groups),
        forall|k: int|
            0 <= k < groups * spec_chunk_size(ids.len() as int, groups)
                ==> #[trigger] spec_chunk(
                ids,
                groups,
                k / spec_chunk_size(ids.len() as int, groups),
            ).contains(ids[k]),
        forall|i1: int, i2: int, x: u64|
            0 <= i1 < i2 < groups ==> !(#[trigger] spec_chunk(ids, groups, i1).contains(x)
                && #[trigger] spec_chunk(ids, groups, i2).contains(x)),
{
    let total = ids.len() as int;
    let c = spec_chunk_size(total, groups);
    lemma_chunks_fit(total, groups);
    assert(1 <= c) by {
        lemma_fundamental_div_mod(total, groups);
        if c < 1 {
            assert(total == groups * c + total % groups);
            assert(groups * c <= 0) by {
                lemma_mul_inequality(c, 0, groups);
            }
            assert(total < groups);
        }
    }
    assert forall|i: int| 0 <= i < groups implies (#[trigger] spec_chunk(ids, groups, i)).len()
        == c by {
        lemma_mul_inequality(i + 1, groups, c);
        assert((i + 1) * c == i * c + c) by {
            vstd::arithmetic::mul::lemma_mul_is_distributive_add_other_way(c, i, 1);
        }
        assert(i * c >= 0) by {
            vstd::arithmetic::mul::lemma_mul_nonnegative(i, c);
        }
    }
    assert forall|k: int| 0 <= k < groups * c implies #[trigger] spec_chunk(
        ids,
        groups,
        k / c,
    ).contains(ids[k]) by {
        let i = k / c;
        let j = k % c;
        lemma_fundamental_div_mod(k, c);
        assert(0 <= j < c) by {
            vstd::arithmetic::div_mod::lemma_mod_bound(k, c);
        }
        assert(0 <= i) by {
            vstd::arithmetic::div_mod::lemma_div_pos_is_pos(k, c);
        }
        assert(i < groups) by {
            if i >= groups {
                assert(groups * c <= i * c) by {
                    lemma_mul_inequality(groups, i, c);
                }
                assert(k == c * i + j);
            }
        }
        assert(i * c + c <= total) by {
            lemma_mul_inequality(i + 1, groups, c);
            assert((i + 1) * c == i * c + c) by {
                vstd::arithmetic::mul::lemma_mul_is_distributive_add_other_way(c, i, 1);
            }
        }
        let chunk = spec_chunk(ids, groups, i);
        assert(k == c * i + j);
        assert(chunk[j] == ids[i * c + j]);
        assert(ids[k] == chunk[j]);
        assert(chunk.contains(ids[k]));
    }
    assert forall|i1: int, i2: int, x: u64| 0 <= i1 < i2 < groups implies !(
    #[trigger] spec_chunk(ids, groups, i1).contains(x) && #[trigger] spec_chunk(
        ids,
        groups,
        i2,
    ).contains(x)) by {
        if spec_chunk(ids, groups, i1).contains(x) && spec_chunk(ids, groups, i2).contains(x) {
            let j1 = choose|j: int|
                0 <= j < spec_chunk(ids, groups, i1).len() && spec_chunk(ids, groups, i1)[j] == x;
            let j2 = choose|j: int|
                0 <= j < spec_chunk(ids, groups, i2).len() && spec_chunk(ids, groups, i2)[j] == x;
            assert(i1 * c + c <= i2 * c) by {
                lemma_mul_inequality(i1 + 1, i2, c);
                assert((i1 + 1) * c == i1 * c + c) by {
                    vstd::arithmetic::mul::lemma_mul_is_distributive_add_other_way(c, i1, 1);
                }
            }
            assert(i2 * c + c <= total) by {
                lemma_mul_inequality(i2 + 1, groups, c);
                assert((i2 + 1) * c == i2 * c + c) by {
                    vstd::arithmetic::mul::lemma_mul_is_distributive_add_other_way(c, i2, 1);
                }
            }
            assert(i1 * c >= 0) by {
                vstd::arithmetic::mul::lemma_mul_nonnegative(i1, c);
            }
            let a = i1 * c + j1;
            let b = i2 * c + j2;
            assert(ids[a] == x && ids[b] == x);
            assert(a < b);
        }
    }
}

/// A single-identifier move failure: recoverable, logged and skipped; the
/// remaining identifiers of the chunk and the later chunks are still tried.
pub struct AssignmentError {
    /// The identifier whose move failed.
    pub tid: u64,
    /// What the resource-group interface reported.
    pub detail: String,
}

/// What one leaf group was given and what it ended up holding.
pub struct GroupAssignment {
    /// The path of the leaf group.
    pub path: String,
    /// The identifiers the assigner tried to move into the group.
    pub attempted: Vec<u64>,
    /// The moves that failed, one entry per failed identifier.
    pub errors: Vec<AssignmentError>,
    /// The membership read back after all attempts: the only source of
    /// truth, since individual moves fail independently of the plan.
    pub members: Vec<u64>,
}

/// Tries to move every identifier of one chunk into one group. A failed
/// move is recorded and does not stop the remaining moves.
pub fn commit_chunk(group: &Cgroup, ids: &Vec<u64>) -> (errors: Vec<AssignmentError>)
    ensures
        errors@.len() <= ids@.len(),
        forall|k: int| 0 <= k < errors@.len() ==> ids@.contains(#[trigger] errors@[k].tid),
{
    let mut errors: Vec<AssignmentError> = Vec::new();
    let mut j: usize = 0;
    while j < ids.len()
        invariant
            0 <= j <= ids@.len(),
            errors@.len() <= j,
            forall|k: int| 0 <= k < errors@.len() ==> ids@.contains(#[trigger] errors@[k].tid),
        decreases ids@.len() - j,
    {
        match cgfs::cg_add_thread(group, ids[j]) {
            Ok(_) => {},
            Err(detail) => {
                errors.push(AssignmentError { tid: ids[j], detail });
            },
        }
        j = j + 1;
    }
    errors
}

/// Commits the identifier chunks to the leaf groups: group `i` is given the
/// `i`-th chunk of `floor(total / groups)` identifiers. Failures are
/// per-identifier and never abort later attempts; after all attempts, each
/// group's actual membership is read back and reported.
pub fn assign_threads(groups: &CGroups, ids: &Vec<u64>) -> (r: Vec<GroupAssignment>)
    requires
        groups.workers@.len() >= 1,
    ensures
        r@.len() == groups.workers@.len(),
        forall|i: int|
            0 <= i < r@.len() ==> (#[trigger] r@[i]).path@ == leaf_path_chars(i),
        forall|i: int|
            0 <= i < r@.len() ==> (#[trigger] r@[i]).attempted@ == spec_chunk(
                ids@,
                groups.workers@.len() as int,
                i,
            ),
        forall|i: int|
            0 <= i < r@.len() ==> (#[trigger] r@[i]).errors@.len() <= r@[i].attempted@.len(),
        forall|i: int, k: int|
            0 <= i < r@.len() && 0 <= k < (#[trigger] r@[i]).errors@.len() ==> r@[i].attempted@
                .contains(#[trigger] r@[i].errors@[k].tid),
{
    let count = groups.workers.len();
    let plan = plan_chunks(ids, count);
    let mut r: Vec<GroupAssignment> = Vec::new();
    let mut i: usize = 0;
    while i < count
        invariant
            1 <= count == groups.workers@.len(),
            plan@.len() == count,
            forall|k: int|
                0 <= k < count as int ==> (#[trigger] plan@[k])@ == spec_chunk(
                    ids@,
                    count as int,
                    k,
                ),
            0 <= i <= count,
            r@.len() == i,
            forall|k: int| 0 <= k < i as int ==> (#[trigger] r@[k]).path@ == leaf_path_chars(k),
            forall|k: int|
                0 <= k < i as int ==> (#[trigger] r@[k]).attempted@ == spec_chunk(
                    ids@,
                    count as int,
                    k,
                ),
            forall|k: int|
                0 <= k < i as int ==> (#[trigger] r@[k]).errors@.len() <= r@[k].attempted@.len(),
            forall|k: int, e: int|
                0 <= k < i as int && 0 <= e < (#[trigger] r@[k]).errors@.len() ==> r@[k].attempted@
                    .contains(#[trigger] r@[k].errors@[e].tid),
        decreases count - i,
    {
        let group = &groups.workers[i];
        let chunk = plan[i].clone();
        let errors = commit_chunk(group, &chunk);
        let members = cgfs::cg_thread_ids(group);
        r.push(GroupAssignment { path: leaf_path(i), attempted: chunk, errors, members });
        i = i + 1;
    }
    r
}

} // verus!
