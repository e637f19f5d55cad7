use rust_bench_playpen::db_bench::{baseline, run_id};
use rust_bench_playpen::db_errors::{DbError, DriverError};
use rust_bench_playpen::db_functions::{get_last_id, persist_item};
use rust_bench_playpen::db_models::NewItem;

#[test]
fn baseline_is_the_last_id() {
    assert_eq!(baseline(&Ok(9)), 9);
    assert_eq!(baseline(&Ok(-3)), -3);
    assert_eq!(baseline(&Ok(i64::MAX)), i64::MAX);
}

#[test]
fn baseline_after_a_failed_lookup_is_zero() {
    assert_eq!(baseline(&Err(DbError::NotFoundError)), 0);
    assert_eq!(baseline(&Err(DbError::PersistenceError(DriverError::Failure("timeout".to_string())))), 0);
    assert_eq!(baseline(&Err(DbError::ConfigurationError)), 0);
}

#[test]
fn run_ids_count_up_from_the_baseline() {
    assert_eq!(run_id(9, 1), Some(10));
    assert_eq!(run_id(9, 200), Some(209));
    assert_eq!(run_id(0, 1), Some(1));
    assert_eq!(run_id(-5, 5), Some(0));
    assert_eq!(run_id(i64::MAX - 1, 1), Some(i64::MAX));
}

#[test]
fn run_id_outside_the_column_is_none() {
    assert_eq!(run_id(i64::MAX, 1), None);
    assert_eq!(run_id(i64::MIN, -1), None);
    assert_eq!(run_id(i64::MAX, i64::MAX), None);
}

#[test]
fn run_ids_grow_and_stay_above_the_baseline() {
    let mut previous: i64 = 1000;
    for ctr in 1..=50 {
        let id = run_id(1000, ctr).expect("fits");
        assert!(previous < id);
        previous = id;
    }
}

#[test]
fn a_run_after_a_populated_table_inserts_fresh_ids() {
    let mut ids: Vec<i64> = Vec::new();
    let mut store = |row: NewItem<'_>, ids: &mut Vec<i64>| {
        if ids.contains(row.id) {
            Err(DriverError::Failure("duplicate key".to_string()))
        } else {
            ids.push(*row.id);
            Ok(1)
        }
    };
    for id in 0..10i64 {
        assert_eq!(persist_item(|row| store(row, &mut ids), &id, "test_id_val"), Ok(()));
    }
    let last = get_last_id(|| ids.iter().copied().max().ok_or(DriverError::NotFound));
    assert_eq!(last, Ok(9));
    let offset = baseline(&last);
    for ctr in 1..=200 {
        let id = run_id(offset, ctr).expect("fits");
        assert_eq!(persist_item(|row| store(row, &mut ids), &id, "test_id_val"), Ok(()));
    }
    assert_eq!(ids.len(), 210);
    assert_eq!(ids.iter().copied().max(), Some(209));
}

#[test]
fn a_run_on_an_empty_table_starts_at_one() {
    let last = get_last_id(|| Err(DriverError::NotFound));
    assert_eq!(last, Err(DbError::NotFoundError));
    assert_eq!(run_id(baseline(&last), 1), Some(1));
}
