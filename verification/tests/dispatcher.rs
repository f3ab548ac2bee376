//! The worker-pool dispatcher driven through its raw transitions:
//! queueing beyond capacity, interleaved workers, pending-call delivery.

use moviedb::executor::DbExecutor;
use moviedb::ops::{CreateMovie, GetAllMovies, OpResult, Operation};
use moviedb::pool::Dispatcher;
use moviedb::store::Store;

fn sample(title: &str) -> CreateMovie {
    CreateMovie {
        title: title.to_string(),
        rating: "G".to_string(),
        category: "Animation".to_string(),
        format: "VHS".to_string(),
        aspect: "2.35:1".to_string(),
        actors: "Voice Cast".to_string(),
        drawer: "1".to_string(),
        column: "2".to_string(),
    }
}

#[test]
fn executor_creates_distinct_ids() {
    let mut db = DbExecutor(Store::new());
    let mut ids = Vec::new();
    for i in 0..3 {
        match db.handle(&Operation::Create(sample(&format!("Movie {}", i)))) {
            OpResult::Created(m) => ids.push(m.id),
            other => panic!("create did not succeed: {:?}", other),
        }
    }
    assert!(!ids[0].is_empty());
    assert_ne!(ids[0], ids[1]);
    assert_ne!(ids[0], ids[2]);
    assert_ne!(ids[1], ids[2]);
}

#[test]
fn executor_rejects_colliding_id() {
    let mut db = DbExecutor(Store::new());
    let first = db.handle_create_with(&sample("First"), "fixed-id".to_string());
    assert!(matches!(first, OpResult::Created(_)));
    let second = db.handle_create_with(&sample("Second"), "fixed-id".to_string());
    assert!(matches!(second, OpResult::Failed));
}

#[test]
fn pool_exhaustion_queues_all_operations() {
    // Five concurrent submissions against two workers: nothing is
    // rejected or dropped; the surplus waits in the channel and every
    // operation eventually completes.
    let mut pool = Dispatcher::new(2);
    let mut calls = Vec::new();
    for i in 0..5 {
        calls.push(pool.submit(Operation::Create(sample(&format!("Queued {}", i)))));
    }
    // Nothing has run yet: no result is ready.
    for &call in &calls {
        assert!(pool.take_result(call).is_none());
    }
    pool.run_pending();
    for &call in &calls {
        match pool.take_result(call) {
            Some(OpResult::Created(_)) => {}
            other => panic!("operation was dropped or failed: {:?}", other),
        }
    }
}

#[test]
fn three_creates_on_two_workers_interleaved() {
    // Three creations submitted together on a pool of two workers, the
    // workers finishing out of submission order: all three succeed with
    // three distinct identifiers, and a listing returns all three.
    let mut pool = Dispatcher::new(2);
    let c1 = pool.submit(Operation::Create(sample("Alpha")));
    let c2 = pool.submit(Operation::Create(sample("Beta")));
    let c3 = pool.submit(Operation::Create(sample("Gamma")));
    pool.step_worker(0); // worker 0 takes the first creation
    pool.step_worker(1); // worker 1 takes the second
    pool.step_worker(1); // worker 1 finishes first
    pool.step_worker(1); // worker 1 takes the third
    pool.step_worker(0); // worker 0 finishes the first
    pool.step_worker(1); // worker 1 finishes the third
    let mut ids = Vec::new();
    for call in [c1, c2, c3] {
        match pool.take_result(call) {
            Some(OpResult::Created(m)) => ids.push(m.id),
            other => panic!("creation did not complete: {:?}", other),
        }
    }
    assert_ne!(ids[0], ids[1]);
    assert_ne!(ids[0], ids[2]);
    assert_ne!(ids[1], ids[2]);

    let list_call = pool.submit(Operation::ListAll(GetAllMovies));
    pool.run_pending();
    match pool.take_result(list_call) {
        Some(OpResult::Listed(all)) => {
            assert_eq!(all.len(), 3);
            for id in &ids {
                assert!(all.iter().any(|m| m.id == *id));
            }
        }
        other => panic!("listing did not complete: {:?}", other),
    }
}

#[test]
fn result_delivered_once_then_destroyed() {
    let mut pool = Dispatcher::new(1);
    let call = pool.submit(Operation::Create(sample("Once")));
    pool.run_pending();
    assert!(matches!(pool.take_result(call), Some(OpResult::Created(_))));
    // The pending call was destroyed on delivery.
    assert!(pool.take_result(call).is_none());
    // An unknown call is a defined outcome, not a crash.
    assert!(pool.take_result(9999).is_none());
}

#[test]
fn shutdown_hands_back_the_table() {
    let mut pool = Dispatcher::new(3);
    pool.submit(Operation::Create(sample("Persisted")));
    pool.run_pending();
    let db = pool.shutdown();
    let rows = db.0.load_all();
    assert_eq!(rows.len(), 1);
    assert_eq!(rows[0].title, "Persisted");
}
