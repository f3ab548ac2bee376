//! The request facade: the entry points the transport layer calls. Each
//! handler submits one typed operation to the dispatcher, awaits its
//! result, and renders it as a transport reply — success with the
//! operation's payload, or the single collapsed internal-failure signal.
//!
//! The dispatcher serializes nothing across calls on its own: a caller
//! that needs one operation ordered after another must await the first
//! before submitting the second, which these handlers do by driving the
//! pool to quiescence. The exact table contracts below are therefore
//! stated against a quiescent start; from any other state the handler
//! still delivers its operation's outcome after the backlog drains.

use vstd::prelude::*;

use crate::executor::{op_decided, op_rel};
use crate::model::{Movie, MovieModel, views_of};
use crate::ops::{
    CreateMovie, DeleteMovie, GetAllMovies, GetMovie, OpResult, Operation, UpdateMovie,
};
use crate::pool::Dispatcher;
use crate::table::{contains_id, lookup, overwrite, unique_ids, without_id};

verus! {

/// The state handed to every handler: the process-wide dispatcher handle,
/// constructed once at startup and passed in explicitly.
pub struct AppState {
    pub db: Dispatcher,
}

/// A transport reply: a success with its payload, or the one opaque
/// internal-failure signal that every store-layer failure collapses into.
#[derive(Debug)]
pub enum Reply {
    /// Success with an empty body.
    OkEmpty,
    /// Success carrying one record.
    OkMovie(Movie),
    /// Success carrying every record, in insertion order.
    OkMovies(Vec<Movie>),
    /// The opaque internal failure.
    InternalError,
}

/// The status line a reply is sent under.
pub open spec fn reply_status(rep: Reply) -> int {
    if rep is InternalError {
        500
    } else {
        200
    }
}

/// The numeric status code for a reply: 500 for the internal failure,
/// 200 for every success.
pub fn status_code(rep: &Reply) -> (s: u16)
    ensures
        s as int == reply_status(*rep),
{
    match rep {
        Reply::InternalError => 500,
        _ => 200,
    }
}

/// Creates a record from the submitted fields. Replies with an empty
/// success once the row — under a freshly drawn identifier not equal to
/// any identifier present — is stored, and with the internal failure if
/// the drawn identifier collided, in which case the table is untouched.
/// Against an empty table no drawn identifier can collide, so there
/// success is owed.
pub fn create_movie(msg: CreateMovie, state: &mut AppState) -> (rep: Reply)
    ensures
        final(state).db.n_workers() == old(state).db.n_workers(),
        final(state).db.quiescent(),
        unique_ids(final(state).db.store()),
        rep is OkEmpty || rep is InternalError,
        old(state).db.quiescent() && old(state).db.store().len() == 0 ==> rep is OkEmpty,
        old(state).db.quiescent() ==> match rep {
            Reply::OkEmpty => exists|m: MovieModel|
                !(#[trigger] contains_id(old(state).db.store(), m.id)) && m.fields == msg@
                    && final(state).db.store() == old(state).db.store().push(m),
            _ => final(state).db.store() == old(state).db.store(),
        },
{
    state.db.run_pending();
    let call = state.db.submit(Operation::Create(msg));
    state.db.step_worker(0);
    state.db.step_worker(0);
    match state.db.take_result(call) {
        Some(OpResult::Created(_)) => Reply::OkEmpty,
        _ => Reply::InternalError,
    }
}

/// Reads one record by identifier. Replies with the record when a row
/// carries the identifier, and with the internal failure when none does;
/// the table is never changed.
pub fn get_movie(msg: GetMovie, state: &mut AppState) -> (rep: Reply)
    ensures
        final(state).db.n_workers() == old(state).db.n_workers(),
        final(state).db.quiescent(),
        unique_ids(final(state).db.store()),
        rep is OkMovie || rep is InternalError,
        old(state).db.quiescent() ==> {
            &&& final(state).db.store() == old(state).db.store()
            &&& match rep {
                Reply::OkMovie(m) => lookup(old(state).db.store(), msg.id@) == Some(m@),
                _ => lookup(old(state).db.store(), msg.id@) is None,
            }
        },
{
    state.db.run_pending();
    let call = state.db.submit(Operation::Read(msg));
    state.db.step_worker(0);
    state.db.step_worker(0);
    match state.db.take_result(call) {
        Some(OpResult::Found(m)) => Reply::OkMovie(m),
        _ => Reply::InternalError,
    }
}

/// Overwrites every field of the record carrying the submitted
/// identifier, wholesale — no field is merged — and replies with an empty
/// success; updating an absent identifier changes nothing and still
/// succeeds, as one affected-row count of zero.
pub fn update_movie(msg: UpdateMovie, state: &mut AppState) -> (rep: Reply)
    ensures
        final(state).db.n_workers() == old(state).db.n_workers(),
        final(state).db.quiescent(),
        unique_ids(final(state).db.store()),
        rep is OkEmpty,
        old(state).db.quiescent() ==> final(state).db.store() == overwrite(
            old(state).db.store(),
            msg.id@,
            msg@.fields,
        ),
{
    state.db.run_pending();
    let call = state.db.submit(Operation::Update(msg));
    state.db.step_worker(0);
    state.db.step_worker(0);
    match state.db.take_result(call) {
        Some(OpResult::Updated) => Reply::OkEmpty,
        _ => Reply::InternalError,
    }
}

/// Deletes the record carrying the submitted identifier and replies with
/// an empty success; deleting an absent identifier is a no-op that still
/// succeeds — zero rows affected, not an error.
pub fn delete_movie(msg: DeleteMovie, state: &mut AppState) -> (rep: Reply)
    ensures
        final(state).db.n_workers() == old(state).db.n_workers(),
        final(state).db.quiescent(),
        unique_ids(final(state).db.store()),
        rep is OkEmpty,
        old(state).db.quiescent() ==> final(state).db.store() == without_id(
            old(state).db.store(),
            msg.id@,
        ),
{
    state.db.run_pending();
    let call = state.db.submit(Operation::Delete(msg));
    state.db.step_worker(0);
    state.db.step_worker(0);
    match state.db.take_result(call) {
        Some(OpResult::Deleted) => Reply::OkEmpty,
        _ => Reply::InternalError,
    }
}

/// Lists every record, in insertion order, and never changes the table.
pub fn get_all_movies(state: &mut AppState) -> (rep: Reply)
    ensures
        final(state).db.n_workers() == old(state).db.n_workers(),
        final(state).db.quiescent(),
        unique_ids(final(state).db.store()),
        rep is OkMovies,
        old(state).db.quiescent() ==> {
            &&& final(state).db.store() == old(state).db.store()
            &&& match rep {
                Reply::OkMovies(v) => views_of(v@) == old(state).db.store(),
                _ => false,
            }
        },
{
    state.db.run_pending();
    let call = state.db.submit(Operation::ListAll(GetAllMovies));
    state.db.step_worker(0);
    state.db.step_worker(0);
    match state.db.take_result(call) {
        Some(OpResult::Listed(v)) => Reply::OkMovies(v),
        _ => Reply::InternalError,
    }
}

} // verus!
