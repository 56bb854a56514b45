//! Chunked assignment of thread identifiers to leaf groups.

use nox_throttle::assign::{chunk_size, plan_chunks};

#[test]
fn nine_threads_three_groups() {
    let ids: Vec<u64> = vec![11, 22, 33, 44, 55, 66, 77, 88, 99];
    let plan = plan_chunks(&ids, 3);
    assert_eq!(plan.len(), 3);
    assert_eq!(plan[0], vec![11, 22, 33]);
    assert_eq!(plan[1], vec![44, 55, 66]);
    assert_eq!(plan[2], vec![77, 88, 99]);
    // every identifier appears exactly once across the groups
    let mut seen: Vec<u64> = plan.iter().flatten().copied().collect();
    seen.sort();
    assert_eq!(seen, vec![11, 22, 33, 44, 55, 66, 77, 88, 99]);
}

#[test]
fn chunk_size_is_floor_of_quotient() {
    assert_eq!(chunk_size(9, 3), 3);
    assert_eq!(chunk_size(7, 2), 3);
    assert_eq!(chunk_size(1, 4), 0);
}

#[test]
fn remainder_is_never_assigned() {
    let ids: Vec<u64> = vec![1, 2, 3, 4, 5, 6, 7];
    let plan = plan_chunks(&ids, 3);
    assert_eq!(plan.len(), 3);
    for chunk in &plan {
        assert_eq!(chunk.len(), 2);
        assert!(!chunk.contains(&7));
    }
}

#[test]
fn single_group_takes_all() {
    let ids: Vec<u64> = vec![5, 6, 7];
    let plan = plan_chunks(&ids, 1);
    assert_eq!(plan.len(), 1);
    assert_eq!(plan[0], vec![5, 6, 7]);
}

#[test]
fn more_groups_than_threads_assigns_nothing() {
    let ids: Vec<u64> = vec![1, 2];
    let plan = plan_chunks(&ids, 4);
    assert_eq!(plan.len(), 4);
    for chunk in &plan {
        assert!(chunk.is_empty());
    }
}
