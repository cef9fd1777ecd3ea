use frontend::passives::{connected_nodes, purchase_status, PassivesState, PurchaseStatus};
use std::collections::HashSet;

fn state(points: u64, bought: &[u64]) -> PassivesState {
    PassivesState::new(points, bought.iter().copied().collect::<HashSet<u64>>())
}

#[test]
fn statuses() {
    assert_eq!(purchase_status(true, true, false, false, false), PurchaseStatus::Purchased);
    assert_eq!(purchase_status(false, false, true, true, false), PurchaseStatus::Purchaseable);
    assert_eq!(purchase_status(false, false, true, false, true), PurchaseStatus::Purchaseable);
    assert_eq!(purchase_status(false, true, true, true, true), PurchaseStatus::Inactive);
    assert_eq!(purchase_status(false, false, false, true, true), PurchaseStatus::Inactive);
    assert_eq!(purchase_status(false, false, true, false, false), PurchaseStatus::Inactive);
}

#[test]
fn neighbours_in_connection_order() {
    let connections = vec![(1, 2), (3, 1), (2, 3), (1, 4)];
    assert_eq!(connected_nodes(&connections, 1), vec![2, 3, 4]);
    assert_eq!(connected_nodes(&connections, 5), Vec::<u64>::new());
}

#[test]
fn connections_and_touching() {
    let s = state(3, &[1, 2]);
    assert_eq!(s.amount_connections(1, 2), 2);
    assert_eq!(s.amount_connections(1, 9), 1);
    assert_eq!(s.amount_connections(8, 9), 0);
    assert!(s.touches_purchased(&vec![7, 2]));
    assert!(!s.touches_purchased(&vec![7, 8]));
}

#[test]
fn buying_a_node() {
    let mut s = state(2, &[]);
    s.purchase_node(5);
    assert_eq!(s.points(), 1);
    assert!(s.is_purchased(5));
}

#[test]
fn next_node_of_build() {
    let s = state(2, &[1, 3]);
    assert_eq!(s.next_node(&vec![1, 3, 4, 2]), Some(4));
    assert_eq!(s.next_node(&vec![1, 3]), None);
}

#[test]
fn auto_assign_one_point() {
    let mut s = state(5, &[1]);
    let bought = s.auto_assign(&vec![1, 2, 3], false);
    assert_eq!(bought, vec![2]);
    assert_eq!(s.points(), 4);
    assert!(s.is_purchased(2));
    assert!(!s.is_purchased(3));
}

#[test]
fn auto_assign_with_ctrl_stops_at_points_or_build_end() {
    let mut s = state(3, &[]);
    let bought = s.auto_assign(&vec![10, 11, 12, 13, 14], true);
    assert_eq!(bought, vec![10, 11, 12]);
    assert_eq!(s.points(), 0);
    let mut s = state(20, &[11]);
    let bought = s.auto_assign(&vec![10, 11, 12], true);
    assert_eq!(bought, vec![10, 12]);
    assert_eq!(s.points(), 18);
    let mut s = state(30, &[]);
    let build: Vec<u64> = (0..15).collect();
    let bought = s.auto_assign(&build, true);
    assert_eq!(bought, (0..10).collect::<Vec<u64>>());
    assert_eq!(s.points(), 20);
}

#[test]
fn auto_assign_with_nothing_left_to_buy() {
    let mut s = state(0, &[1]);
    assert!(s.auto_assign(&vec![1], false).is_empty());
    assert_eq!(s.points(), 0);
}
