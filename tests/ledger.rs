use pltx::ledger::{PositionTable, Row};

fn positions(t: &PositionTable, group: i32) -> Vec<i32> {
    let mut p: Vec<i32> = t.rows.iter().filter(|r| r.group == group).map(|r| r.position).collect();
    p.sort();
    p
}

fn ids_in_order(t: &PositionTable, group: i32) -> Vec<i32> {
    let mut rows: Vec<Row> = t.rows.iter().filter(|r| r.group == group).cloned().collect();
    rows.sort_by_key(|r| r.position);
    rows.iter().map(|r| r.id).collect()
}

fn table() -> PositionTable {
    let mut t = PositionTable::new();
    for id in 1..=3 {
        assert!(t.insert(id, 10));
    }
    for id in 4..=5 {
        assert!(t.insert(id, 20));
    }
    t
}

#[test]
fn insert_appends_at_the_end_of_its_group() {
    let t = table();
    assert_eq!(positions(&t, 10), vec![0, 1, 2]);
    assert_eq!(positions(&t, 20), vec![0, 1]);
    assert_eq!(t.get_position(3), Some(2));
    assert_eq!(t.get_position(5), Some(1));
}

#[test]
fn insert_refuses_a_taken_id() {
    let mut t = table();
    assert!(!t.insert(2, 20));
    assert_eq!(t.rows.len(), 5);
}

#[test]
fn highest_position_of_an_empty_group_is_minus_one() {
    let t = table();
    assert_eq!(t.get_highest_position(99), -1);
    assert_eq!(t.get_highest_position(10), 2);
}

#[test]
fn delete_closes_the_gap_in_its_group_only() {
    let mut t = table();
    assert!(t.delete(1));
    assert_eq!(positions(&t, 10), vec![0, 1]);
    assert_eq!(ids_in_order(&t, 10), vec![2, 3]);
    assert_eq!(positions(&t, 20), vec![0, 1]);
    assert!(!t.delete(1));
}

#[test]
fn density_holds_after_a_mixed_sequence() {
    let mut t = table();
    assert!(t.move_to(2, 20));
    assert!(t.insert(6, 10));
    assert!(t.delete(4));
    assert!(t.move_to(6, 30));
    assert!(t.increment_position(1, 3));
    assert_eq!(positions(&t, 10), vec![0, 1]);
    assert_eq!(positions(&t, 20), vec![0, 1]);
    assert_eq!(positions(&t, 30), vec![0]);
    assert_eq!(ids_in_order(&t, 10), vec![3, 1]);
    assert_eq!(ids_in_order(&t, 20), vec![5, 2]);
}

#[test]
fn move_goes_to_the_end_of_the_other_group() {
    let mut t = table();
    assert!(t.move_to(1, 20));
    assert_eq!(ids_in_order(&t, 10), vec![2, 3]);
    assert_eq!(ids_in_order(&t, 20), vec![4, 5, 1]);
    assert_eq!(t.get_position(1), Some(2));
    assert!(!t.move_to(1, 20));
    assert!(!t.move_to(42, 10));
}

#[test]
fn moving_the_last_row_there_and_back_restores_the_table() {
    let mut t = table();
    let before = t.rows.clone();
    assert!(t.move_to(3, 20));
    assert!(t.move_to(3, 10));
    assert_eq!(t.rows, before);
}

#[test]
fn moving_a_first_row_there_and_back_changes_its_place() {
    let mut t = table();
    assert!(t.move_to(1, 20));
    assert!(t.move_to(1, 10));
    assert_eq!(ids_in_order(&t, 10), vec![2, 3, 1]);
    assert_eq!(ids_in_order(&t, 20), vec![4, 5]);
}

#[test]
fn swaps_need_neighbours() {
    let mut t = table();
    assert!(t.increment_position(1, 2));
    assert_eq!(ids_in_order(&t, 10), vec![2, 1, 3]);
    assert!(t.decrement_position(1, 2));
    assert_eq!(ids_in_order(&t, 10), vec![1, 2, 3]);
    assert!(!t.increment_position(1, 3));
    assert!(!t.increment_position(3, 4));
    assert_eq!(ids_in_order(&t, 10), vec![1, 2, 3]);
}

#[test]
fn decrement_primitives_lower_positions_above_the_mark() {
    let mut t = table();
    t.decrement_positions_after_where(0, 10);
    assert_eq!(positions(&t, 10), vec![0, 0, 1]);
    assert_eq!(positions(&t, 20), vec![0, 1]);
    let mut u = table();
    u.decrement_positions_after(0);
    assert_eq!(positions(&u, 10), vec![0, 0, 1]);
    assert_eq!(positions(&u, 20), vec![0, 0]);
}
