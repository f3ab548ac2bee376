//! Round trips against the record store client itself: one blocking
//! round trip per call, exact results, defined outcomes for absent rows.

use moviedb::model::Movie;
use moviedb::ops::CreateMovie;
use moviedb::store::{Store, StoreError};

fn sample(title: &str) -> CreateMovie {
    CreateMovie {
        title: title.to_string(),
        rating: "PG-13".to_string(),
        category: "Sci-Fi".to_string(),
        format: "Blu-ray".to_string(),
        aspect: "16:9".to_string(),
        actors: "Ensemble Cast".to_string(),
        drawer: "3".to_string(),
        column: "7".to_string(),
    }
}

fn row(id: &str, title: &str) -> Movie {
    sample(title).with_id(id.to_string())
}

#[test]
fn store_insert_then_find() {
    let mut store = Store::new();
    assert!(store.insert_row(row("id-1", "Solaris")).is_ok());
    let found = store.find_row(&"id-1".to_string()).expect("row should be present");
    assert_eq!(found.id, "id-1");
    assert_eq!(found.title, "Solaris");
    assert_eq!(found.rating, "PG-13");
    assert_eq!(found.category, "Sci-Fi");
    assert_eq!(found.format, "Blu-ray");
    assert_eq!(found.aspect, "16:9");
    assert_eq!(found.actors, "Ensemble Cast");
    assert_eq!(found.drawer, "3");
    assert_eq!(found.column, "7");
}

#[test]
fn store_duplicate_insert_rejected() {
    let mut store = Store::new();
    assert!(store.insert_row(row("id-1", "First")).is_ok());
    let err = store.insert_row(row("id-1", "Second"));
    assert_eq!(err, Err(StoreError::DuplicateId));
    // The clash left the table untouched.
    let found = store.find_row(&"id-1".to_string()).unwrap();
    assert_eq!(found.title, "First");
    assert_eq!(store.load_all().len(), 1);
}

#[test]
fn store_update_overwrites_all_fields() {
    let mut store = Store::new();
    assert!(store.insert_row(row("id-1", "Original")).is_ok());
    let replacement = CreateMovie {
        title: "Replacement".to_string(),
        rating: "R".to_string(),
        category: "Drama".to_string(),
        format: "DVD".to_string(),
        aspect: "4:3".to_string(),
        actors: "Solo Lead".to_string(),
        drawer: "9".to_string(),
        column: "1".to_string(),
    };
    let affected = store.update_row(&"id-1".to_string(), &replacement);
    assert_eq!(affected, 1);
    let found = store.find_row(&"id-1".to_string()).unwrap();
    // Every field replaced wholesale, none merged from the original.
    assert_eq!(found.id, "id-1");
    assert_eq!(found.title, "Replacement");
    assert_eq!(found.rating, "R");
    assert_eq!(found.category, "Drama");
    assert_eq!(found.format, "DVD");
    assert_eq!(found.aspect, "4:3");
    assert_eq!(found.actors, "Solo Lead");
    assert_eq!(found.drawer, "9");
    assert_eq!(found.column, "1");
}

#[test]
fn store_update_absent_affects_zero_rows() {
    let mut store = Store::new();
    assert!(store.insert_row(row("id-1", "Kept")).is_ok());
    let affected = store.update_row(&"missing".to_string(), &sample("Ignored"));
    assert_eq!(affected, 0);
    let found = store.find_row(&"id-1".to_string()).unwrap();
    assert_eq!(found.title, "Kept");
}

#[test]
fn store_delete_then_find_none() {
    let mut store = Store::new();
    assert!(store.insert_row(row("id-1", "Short-lived")).is_ok());
    let affected = store.delete_row(&"id-1".to_string());
    assert_eq!(affected, 1);
    assert!(store.find_row(&"id-1".to_string()).is_none());
    assert_eq!(store.load_all().len(), 0);
}

#[test]
fn store_delete_absent_affects_zero_rows() {
    let mut store = Store::new();
    let affected = store.delete_row(&"missing".to_string());
    assert_eq!(affected, 0);
    assert_eq!(store.load_all().len(), 0);
}

#[test]
fn store_load_all_keeps_insertion_order() {
    let mut store = Store::new();
    assert!(store.insert_row(row("id-1", "First")).is_ok());
    assert!(store.insert_row(row("id-2", "Second")).is_ok());
    assert!(store.insert_row(row("id-3", "Third")).is_ok());
    let all = store.load_all();
    assert_eq!(all.len(), 3);
    assert_eq!(all[0].title, "First");
    assert_eq!(all[1].title, "Second");
    assert_eq!(all[2].title, "Third");
}
