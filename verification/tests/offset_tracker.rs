use ssu_mgmt::messaging::consumer::{post_rebalance, Rebalance};
use ssu_mgmt::messaging::offset_tracker::new_offset_tracker;

fn sorted(mut pairs: Vec<(i32, i64)>) -> Vec<(i32, i64)> {
    pairs.sort();
    pairs
}

#[test]
fn new_tracker_is_empty() {
    let tracker = new_offset_tracker();
    assert!(tracker.snapshot().is_empty());
    assert!(!tracker.is_assigned(0));
    assert_eq!(tracker.offset_of(0), None);
}

#[test]
fn position_is_one_past_the_highest_delivered_offset() {
    let mut tracker = new_offset_tracker();
    tracker.mark_assigned(3);
    for offset in [10i64, 11, 12, 13] {
        tracker.advance(3, offset + 1);
    }
    assert_eq!(tracker.snapshot(), vec![(3, 14)]);
    assert_eq!(tracker.offset_of(3), Some(14));
}

#[test]
fn position_never_moves_backwards() {
    let mut tracker = new_offset_tracker();
    tracker.mark_assigned(1);
    tracker.advance(1, 50);
    tracker.advance(1, 20);
    assert_eq!(tracker.offset_of(1), Some(50));
    tracker.advance(1, 50);
    assert_eq!(tracker.offset_of(1), Some(50));
    tracker.advance(1, 51);
    assert_eq!(tracker.offset_of(1), Some(51));
}

#[test]
fn partitions_are_tracked_independently() {
    let mut tracker = new_offset_tracker();
    tracker.mark_assigned(0);
    tracker.mark_assigned(1);
    tracker.mark_assigned(2);
    tracker.advance(0, 5);
    tracker.advance(2, 9);
    tracker.advance(0, 6);
    assert_eq!(sorted(tracker.snapshot()), vec![(0, 6), (2, 9)]);
    assert_eq!(tracker.offset_of(1), None);
}

#[test]
fn partition_without_a_mark_is_tracked_too() {
    let mut tracker = new_offset_tracker();
    tracker.advance(7, 100);
    assert_eq!(tracker.snapshot(), vec![(7, 100)]);
    assert_eq!(tracker.offset_of(7), Some(100));
    assert!(!tracker.is_assigned(7));
    tracker.advance(7, 99);
    assert_eq!(tracker.offset_of(7), Some(100));
    tracker.mark_revoked(7);
    assert!(tracker.snapshot().is_empty());
}

#[test]
fn revoke_removes_partition_from_snapshot() {
    let mut tracker = new_offset_tracker();
    tracker.mark_assigned(4);
    tracker.mark_assigned(5);
    tracker.advance(4, 8);
    tracker.advance(5, 3);
    tracker.mark_revoked(4);
    assert_eq!(tracker.snapshot(), vec![(5, 3)]);
    assert!(!tracker.is_assigned(4));
    assert!(tracker.is_assigned(5));
}

#[test]
fn reassigned_partition_starts_from_the_next_message() {
    let mut tracker = new_offset_tracker();
    tracker.mark_assigned(4);
    tracker.advance(4, 1000);
    tracker.mark_revoked(4);
    tracker.mark_assigned(4);
    assert_eq!(tracker.offset_of(4), None);
    tracker.advance(4, 17 + 1);
    assert_eq!(tracker.snapshot(), vec![(4, 18)]);
}

#[test]
fn assigning_twice_keeps_the_position() {
    let mut tracker = new_offset_tracker();
    tracker.mark_assigned(2);
    tracker.advance(2, 12);
    tracker.mark_assigned(2);
    assert_eq!(tracker.offset_of(2), Some(12));
}

#[test]
fn revoking_an_unknown_partition_changes_nothing() {
    let mut tracker = new_offset_tracker();
    tracker.mark_assigned(1);
    tracker.advance(1, 2);
    tracker.mark_revoked(9);
    assert_eq!(tracker.snapshot(), vec![(1, 2)]);
}

#[test]
fn extreme_offsets_are_recorded() {
    let mut tracker = new_offset_tracker();
    tracker.mark_assigned(i32::MIN);
    tracker.mark_assigned(i32::MAX);
    tracker.advance(i32::MIN, i64::MIN);
    tracker.advance(i32::MAX, i64::MAX);
    assert_eq!(tracker.offset_of(i32::MIN), Some(i64::MIN));
    assert_eq!(tracker.offset_of(i32::MAX), Some(i64::MAX));
}

#[test]
fn detached_copy_does_not_follow_later_writes() {
    let mut tracker = new_offset_tracker();
    tracker.mark_assigned(1);
    tracker.advance(1, 5);
    let mut copy = tracker.detached_copy();
    assert_eq!(copy.snapshot(), vec![(1, 5)]);
    copy.advance(1, 9);
    copy.mark_assigned(2);
    assert_eq!(tracker.offset_of(1), Some(5));
    assert!(!tracker.is_assigned(2));
    assert_eq!(copy.offset_of(1), Some(9));
    tracker.advance(1, 7);
    tracker.mark_revoked(1);
    assert_eq!(copy.offset_of(1), Some(9));
    assert!(copy.is_assigned(1));
}

#[test]
fn rebalance_assign_marks_every_partition() {
    let mut tracker = new_offset_tracker();
    post_rebalance(&mut tracker, &Rebalance::Assign(vec![0, 1, 2, 1]));
    assert!(tracker.is_assigned(0));
    assert!(tracker.is_assigned(1));
    assert!(tracker.is_assigned(2));
    assert!(!tracker.is_assigned(3));
    assert!(tracker.snapshot().is_empty());
}

#[test]
fn rebalance_revoke_removes_marks_and_positions() {
    let mut tracker = new_offset_tracker();
    post_rebalance(&mut tracker, &Rebalance::Assign(vec![0, 1, 2]));
    tracker.advance(0, 4);
    tracker.advance(1, 5);
    tracker.advance(2, 6);
    post_rebalance(&mut tracker, &Rebalance::Revoke(vec![0, 2]));
    assert_eq!(tracker.snapshot(), vec![(1, 5)]);
    assert!(!tracker.is_assigned(0));
    assert!(tracker.is_assigned(1));
    assert!(!tracker.is_assigned(2));
}

#[test]
fn rebalance_error_changes_nothing() {
    let mut tracker = new_offset_tracker();
    post_rebalance(&mut tracker, &Rebalance::Assign(vec![6]));
    tracker.advance(6, 2);
    post_rebalance(&mut tracker, &Rebalance::Error);
    assert_eq!(tracker.snapshot(), vec![(6, 2)]);
    assert!(tracker.is_assigned(6));
}

#[test]
fn rebalance_with_no_partitions_changes_nothing() {
    let mut tracker = new_offset_tracker();
    post_rebalance(&mut tracker, &Rebalance::Assign(vec![6]));
    tracker.advance(6, 2);
    post_rebalance(&mut tracker, &Rebalance::Assign(vec![]));
    post_rebalance(&mut tracker, &Rebalance::Revoke(vec![]));
    assert_eq!(tracker.snapshot(), vec![(6, 2)]);
}
