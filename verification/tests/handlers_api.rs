//! The request facade end to end: each handler submits through the pool,
//! awaits its operation, and renders the outcome as a transport reply.

use moviedb::handlers::{
    AppState, Reply, create_movie, delete_movie, get_all_movies, get_movie, status_code,
    update_movie,
};
use moviedb::ops::{CreateMovie, DeleteMovie, GetMovie, UpdateMovie};
use moviedb::pool::Dispatcher;

fn sample(title: &str) -> CreateMovie {
    CreateMovie {
        title: title.to_string(),
        rating: "PG".to_string(),
        category: "Adventure".to_string(),
        format: "4K".to_string(),
        aspect: "1.85:1".to_string(),
        actors: "Duo".to_string(),
        drawer: "5".to_string(),
        column: "8".to_string(),
    }
}

fn fresh_state() -> AppState {
    AppState { db: Dispatcher::new(3) }
}

fn listed(state: &mut AppState) -> Vec<moviedb::model::Movie> {
    match get_all_movies(state) {
        Reply::OkMovies(all) => all,
        other => panic!("listing failed: {:?}", other),
    }
}

#[test]
fn handler_create_then_read_round_trip() {
    let mut state = fresh_state();
    assert!(matches!(create_movie(sample("Round Trip"), &mut state), Reply::OkEmpty));
    let all = listed(&mut state);
    assert_eq!(all.len(), 1);
    let id = all[0].id.clone();
    match get_movie(GetMovie { id: id.clone() }, &mut state) {
        Reply::OkMovie(m) => {
            assert_eq!(m.id, id);
            assert_eq!(m.title, "Round Trip");
            assert_eq!(m.rating, "PG");
            assert_eq!(m.category, "Adventure");
            assert_eq!(m.format, "4K");
            assert_eq!(m.aspect, "1.85:1");
            assert_eq!(m.actors, "Duo");
            assert_eq!(m.drawer, "5");
            assert_eq!(m.column, "8");
        }
        other => panic!("read failed: {:?}", other),
    }
}

#[test]
fn handler_create_update_read_serialized() {
    // One identifier, create then update then read, each call awaited
    // before the next is submitted: the read returns the replacement
    // fields, not the original ones.
    let mut state = fresh_state();
    assert!(matches!(create_movie(sample("Before"), &mut state), Reply::OkEmpty));
    let id = listed(&mut state)[0].id.clone();
    let update = UpdateMovie {
        id: id.clone(),
        title: "After".to_string(),
        rating: "R".to_string(),
        category: "Thriller".to_string(),
        format: "Laserdisc".to_string(),
        aspect: "2.39:1".to_string(),
        actors: "Trio".to_string(),
        drawer: "2".to_string(),
        column: "4".to_string(),
    };
    assert!(matches!(update_movie(update, &mut state), Reply::OkEmpty));
    match get_movie(GetMovie { id: id.clone() }, &mut state) {
        Reply::OkMovie(m) => {
            assert_eq!(m.id, id);
            assert_eq!(m.title, "After");
            assert_eq!(m.rating, "R");
            assert_eq!(m.category, "Thriller");
            assert_eq!(m.format, "Laserdisc");
            assert_eq!(m.aspect, "2.39:1");
            assert_eq!(m.actors, "Trio");
            assert_eq!(m.drawer, "2");
            assert_eq!(m.column, "4");
        }
        other => panic!("read failed: {:?}", other),
    }
}

#[test]
fn handler_delete_then_read_fails() {
    let mut state = fresh_state();
    assert!(matches!(create_movie(sample("Doomed"), &mut state), Reply::OkEmpty));
    let id = listed(&mut state)[0].id.clone();
    assert!(matches!(delete_movie(DeleteMovie { id: id.clone() }, &mut state), Reply::OkEmpty));
    let rep = get_movie(GetMovie { id }, &mut state);
    assert!(matches!(rep, Reply::InternalError));
    assert_eq!(status_code(&rep), 500);
}

#[test]
fn handler_delete_absent_id_succeeds() {
    let mut state = fresh_state();
    let rep = delete_movie(DeleteMovie { id: "missing".to_string() }, &mut state);
    assert!(matches!(rep, Reply::OkEmpty));
    assert_eq!(status_code(&rep), 200);
}

#[test]
fn handler_update_absent_id_succeeds() {
    let mut state = fresh_state();
    let update = UpdateMovie {
        id: "missing".to_string(),
        title: "Nowhere".to_string(),
        rating: "NR".to_string(),
        category: "None".to_string(),
        format: "None".to_string(),
        aspect: "None".to_string(),
        actors: "None".to_string(),
        drawer: "0".to_string(),
        column: "0".to_string(),
    };
    assert!(matches!(update_movie(update, &mut state), Reply::OkEmpty));
    assert_eq!(listed(&mut state).len(), 0);
}

#[test]
fn handler_read_missing_is_internal_error() {
    let mut state = fresh_state();
    let rep = get_movie(GetMovie { id: "nope".to_string() }, &mut state);
    assert!(matches!(rep, Reply::InternalError));
    assert_eq!(status_code(&rep), 500);
}

#[test]
fn handler_status_codes() {
    assert_eq!(status_code(&Reply::OkEmpty), 200);
    assert_eq!(status_code(&Reply::OkMovies(Vec::new())), 200);
    assert_eq!(status_code(&Reply::InternalError), 500);
}

#[test]
fn handler_list_is_exactly_the_live_ids() {
    // Three created, one deleted: the listing holds exactly the other
    // two identifiers, none twice, none missing.
    let mut state = fresh_state();
    assert!(matches!(create_movie(sample("One"), &mut state), Reply::OkEmpty));
    assert!(matches!(create_movie(sample("Two"), &mut state), Reply::OkEmpty));
    assert!(matches!(create_movie(sample("Three"), &mut state), Reply::OkEmpty));
    let all = listed(&mut state);
    assert_eq!(all.len(), 3);
    let doomed = all[1].id.clone();
    assert!(matches!(delete_movie(DeleteMovie { id: doomed.clone() }, &mut state), Reply::OkEmpty));
    let rest = listed(&mut state);
    assert_eq!(rest.len(), 2);
    assert!(rest.iter().all(|m| m.id != doomed));
    assert!(rest.iter().any(|m| m.id == all[0].id));
    assert!(rest.iter().any(|m| m.id == all[2].id));
    assert_ne!(rest[0].id, rest[1].id);
}
