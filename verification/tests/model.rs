use inventory_demo::table::{QueryError, Table};
use inventory_demo::workflow::{
    random_delete_id, random_quantity, run_demo, seed, update_phase, Database, WorkflowError,
};

#[test]
fn new_table_is_empty() {
    let t = Table::new();
    assert_eq!(t.rows.len(), 0);
    assert_eq!(t.next_id, 1);
}

#[test]
fn insert_assigns_sequential_ids() {
    let mut t = Table::new();
    assert_eq!(t.insert("item-1".to_string(), 42), 1);
    assert_eq!(t.insert("item-2".to_string(), 43), 2);
    assert_eq!(t.insert("item-3".to_string(), 10), 3);
    assert_eq!(t.rows.len(), 3);
    assert_eq!(t.rows[0].name, "item-1");
    assert_eq!(t.rows[2].quantity, 10);
    assert_eq!(t.next_id, 4);
}

#[test]
fn point_lookup_finds_row() {
    let mut t = Table::new();
    t.insert("item-1".to_string(), 42);
    t.insert("item-2".to_string(), 43);
    match t.select_by_id(2) {
        Some((name, quantity)) => {
            assert_eq!(name, "item-2");
            assert_eq!(quantity, 43);
        }
        None => panic!("row with id 2 must exist"),
    }
    assert!(t.select_by_id(7).is_none());
}

#[test]
fn point_lookup_on_empty_table_is_none() {
    let t = Table::new();
    assert!(t.select_by_id(1).is_none());
}

#[test]
fn full_scan_returns_all_rows() {
    let mut t = Table::new();
    t.insert("item-1".to_string(), 42);
    t.insert("item-2".to_string(), 43);
    let scanned = t.select_all();
    assert_eq!(scanned.len(), t.rows.len());
    for i in 0..scanned.len() {
        assert_eq!(scanned[i].id, t.rows[i].id);
        assert_eq!(scanned[i].name, t.rows[i].name);
        assert_eq!(scanned[i].quantity, t.rows[i].quantity);
    }
}

#[test]
fn update_with_one_match_returns_new_quantity() {
    let mut t = Table::new();
    t.insert("item-1".to_string(), 42);
    t.insert("item-2".to_string(), 43);
    let r = t.update_by_name(&"item-2".to_string(), 17);
    assert_eq!(r, Ok(17));
    assert_eq!(t.rows[1].quantity, 17);
    assert_eq!(t.rows[0].quantity, 42);
}

#[test]
fn update_with_no_match_fails_and_changes_nothing() {
    let mut t = Table::new();
    t.insert("item-1".to_string(), 42);
    let r = t.update_by_name(&"item-9".to_string(), 17);
    assert_eq!(r, Err(QueryError::NoRows));
    assert_eq!(t.rows[0].quantity, 42);
}

#[test]
fn update_with_two_matches_fails_after_updating_both() {
    let mut t = Table::new();
    t.insert("item-1".to_string(), 42);
    t.insert("item-1".to_string(), 30);
    let r = t.update_by_name(&"item-1".to_string(), 17);
    assert_eq!(r, Err(QueryError::ManyRows));
    assert_eq!(t.rows[0].quantity, 17);
    assert_eq!(t.rows[1].quantity, 17);
}

#[test]
fn delete_removes_exactly_one_row_and_returns_it() {
    let mut t = Table::new();
    t.insert("item-1".to_string(), 42);
    t.insert("item-2".to_string(), 43);
    t.insert("item-3".to_string(), 11);
    match t.delete_by_id(2) {
        Ok(row) => {
            assert_eq!(row.id, 2);
            assert_eq!(row.name, "item-2");
            assert_eq!(row.quantity, 43);
        }
        Err(_) => panic!("delete of id 2 must succeed"),
    }
    assert_eq!(t.rows.len(), 2);
    assert_eq!(t.rows[0].id, 1);
    assert_eq!(t.rows[1].id, 3);
}

#[test]
fn repeated_delete_of_same_id_fails() {
    let mut t = Table::new();
    t.insert("item-1".to_string(), 42);
    t.insert("item-2".to_string(), 43);
    assert!(t.delete_by_id(1).is_ok());
    assert!(matches!(t.delete_by_id(1), Err(QueryError::NoRows)));
    assert_eq!(t.rows.len(), 1);
}

#[test]
fn reset_schema_leaves_empty_table() {
    let mut db = Database::new();
    let dropped = db.reset_schema();
    assert!(!dropped);
    assert!(db.exists);
    assert_eq!(db.table.rows.len(), 0);
    assert_eq!(db.table.next_id, 1);
    seed(&mut db.table, 10, 20, 30, 40);
    let dropped = db.reset_schema();
    assert!(dropped);
    assert_eq!(db.table.rows.len(), 0);
}

#[test]
fn seed_inserts_six_rows_in_order() {
    let mut t = Table::new();
    let ids = seed(&mut t, 10, 50, 33, 47);
    assert_eq!(ids, vec![1, 2, 3, 4, 5, 6]);
    assert_eq!(t.rows.len(), 6);
    let expected_names = ["item-1", "item-2", "item-3", "item-4", "item-5", "item-1"];
    let expected_quantities = [42, 43, 10, 50, 33, 47];
    for i in 0..6 {
        assert_eq!(t.rows[i].id as usize, i + 1);
        assert_eq!(t.rows[i].name, expected_names[i]);
        assert_eq!(t.rows[i].quantity, expected_quantities[i]);
    }
}

#[test]
fn point_lookup_right_after_seeding() {
    let mut t = Table::new();
    seed(&mut t, 11, 12, 13, 14);
    match t.select_by_id(1) {
        Some((name, quantity)) => {
            assert_eq!(name, "item-1");
            assert_eq!(quantity, 42);
        }
        None => panic!("seeded row with id 1 must exist"),
    }
}

#[test]
fn full_scan_after_seeding_returns_the_six_rows() {
    let mut t = Table::new();
    seed(&mut t, 11, 12, 13, 14);
    let scanned = t.select_all();
    assert_eq!(scanned.len(), 6);
    let mut expected: Vec<(i32, String, i32)> = vec![
        (1, "item-1".to_string(), 42),
        (2, "item-2".to_string(), 43),
        (3, "item-3".to_string(), 11),
        (4, "item-4".to_string(), 12),
        (5, "item-5".to_string(), 13),
        (6, "item-1".to_string(), 14),
    ];
    let mut got: Vec<(i32, String, i32)> = scanned
        .iter()
        .map(|r| (r.id, r.name.clone(), r.quantity))
        .collect();
    expected.sort();
    got.sort();
    assert_eq!(got, expected);
}

#[test]
fn update_phase_on_unique_names_applies_all_quantities() {
    let mut t = Table::new();
    t.insert("item-1".to_string(), 42);
    t.insert("item-2".to_string(), 43);
    t.insert("item-3".to_string(), 10);
    t.insert("item-4".to_string(), 11);
    t.insert("item-5".to_string(), 12);
    let new_q = vec![21, 22, 23, 24, 25];
    let r = update_phase(&mut t, &new_q);
    assert_eq!(r, Ok(new_q.clone()));
    for i in 0..5 {
        assert_eq!(t.rows[i].quantity, new_q[i]);
    }
}

#[test]
fn update_phase_flags_the_duplicated_seed_name() {
    let mut t = Table::new();
    seed(&mut t, 11, 12, 13, 14);
    let r = update_phase(&mut t, &vec![21, 22, 23, 24, 25]);
    assert_eq!(r, Err(QueryError::ManyRows));
    assert_eq!(t.rows.len(), 6);
}

#[test]
fn end_to_end_run_stops_at_the_duplicated_update() {
    let mut db = Database::new();
    let r = run_demo(&mut db, 10, 20, 30, 40, &vec![11, 12, 13, 14, 15], 3);
    match r {
        Err(WorkflowError::Update(QueryError::ManyRows)) => {}
        _ => panic!("the run must stop at the update of the duplicated name"),
    }
    assert!(db.exists);
    assert_eq!(db.table.rows.len(), 6);
    for i in 0..6 {
        assert_eq!(db.table.rows[i].id as usize, i + 1);
    }
    assert_eq!(db.table.rows[5].name, "item-1");
}

#[test]
fn random_quantity_stays_in_range() {
    for _ in 0..200 {
        let q = random_quantity();
        assert!((10..=50).contains(&q));
    }
}

#[test]
fn random_delete_id_stays_in_range() {
    for _ in 0..200 {
        let id = random_delete_id();
        assert!((1..=5).contains(&id));
    }
}
