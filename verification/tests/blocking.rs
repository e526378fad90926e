use engram::blocking::{blocked_issues_graph, blocking_graph_for_issue, leaf_blockers, BlockLink};
use engram::enums::IssueStatus;

#[test]
fn chains_start_at_leaf_blockers() {
    // 1 blocks 2, 2 blocks 3, 4 blocks 3
    let g = blocked_issues_graph(&vec![(1, 2), (2, 3), (4, 3)]);
    assert_eq!(g.leaf_blockers, vec![1, 4]);
    assert!(!g.has_cycle);
    let mut chains = g.chains.clone();
    chains.sort();
    assert_eq!(chains, vec![vec![1, 2, 3], vec![4, 3]]);
}

#[test]
fn a_cycle_reachable_from_a_leaf_is_reported() {
    // 1 -> 2 -> 3 -> 2
    let g = blocked_issues_graph(&vec![(1, 2), (2, 3), (3, 2)]);
    assert!(g.has_cycle);
    assert_eq!(g.leaf_blockers, vec![1]);
    let isolated_cycle = blocked_issues_graph(&vec![(5, 6), (6, 5)]);
    assert!(isolated_cycle.leaf_blockers.is_empty());
    assert!(!isolated_cycle.has_cycle);
    assert!(leaf_blockers(&vec![]).is_empty());
}

#[test]
fn graph_around_an_issue_stops_at_closed_issues() {
    let links = vec![
        BlockLink { source: 1, target: 2, source_status: IssueStatus::Ready, target_status: IssueStatus::Ready },
        BlockLink { source: 2, target: 3, source_status: IssueStatus::Ready, target_status: IssueStatus::Finished },
        BlockLink { source: 3, target: 4, source_status: IssueStatus::Finished, target_status: IssueStatus::Ready },
    ];
    let g = blocking_graph_for_issue(2, &links);
    let mut ids: Vec<i64> = g.node_statuses.iter().map(|(id, _)| *id).collect();
    ids.sort();
    assert!(ids.contains(&1) && ids.contains(&2));
    assert!(!ids.contains(&4));
    assert_eq!(g.leaf_blockers, vec![1]);
    let lonely = blocking_graph_for_issue(42, &links);
    assert!(lonely.node_statuses.is_empty());
    assert!(lonely.chains.is_empty());
}

#[test]
fn a_single_link_gives_a_single_chain_from_either_end() {
    let links = vec![BlockLink { source: 7, target: 9, source_status: IssueStatus::Ready, target_status: IssueStatus::Ready }];
    let g = blocking_graph_for_issue(9, &links);
    assert_eq!(g.chains, vec![vec![7, 9]]);
    assert_eq!(g.leaf_blockers, vec![7]);
    assert!(!g.has_cycle);
    assert_eq!(blocking_graph_for_issue(7, &links).chains, g.chains);
}

#[test]
fn a_cycle_keeps_the_chains_found_before_it() {
    // leaf 1: 1 -> 2, 1 -> 3 -> 4 -> 3 (a cycle); leaf 5: 5 -> 6
    let g = blocked_issues_graph(&vec![(1, 2), (1, 3), (3, 4), (4, 3), (5, 6)]);
    assert!(g.has_cycle);
    assert_eq!(g.leaf_blockers, vec![1, 5]);
    assert_eq!(g.chains, vec![vec![1, 2]]);
    // leaf 1 has only chains; the walk from leaf 7 meets the cycle 8 -> 9 -> 8
    let g = blocked_issues_graph(&vec![(7, 8), (8, 9), (9, 8), (1, 2), (2, 3)]);
    assert!(g.has_cycle);
    assert_eq!(g.leaf_blockers, vec![1, 7]);
    assert_eq!(g.chains, vec![vec![1, 2, 3]]);
}

#[test]
fn chains_come_leaf_by_leaf() {
    let g = blocked_issues_graph(&vec![(9, 10), (3, 4), (3, 5), (1, 6)]);
    assert!(!g.has_cycle);
    assert_eq!(g.leaf_blockers, vec![1, 3, 9]);
    assert_eq!(g.chains, vec![vec![1, 6], vec![3, 4], vec![3, 5], vec![9, 10]]);
}
