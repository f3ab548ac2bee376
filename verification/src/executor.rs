//! The executor that a worker owns: one store connection for its whole
//! lifetime, handling one typed operation at a time. `op_rel` is the
//! denotation of the vocabulary — what one operation does to the table and
//! what result it hands back — and `handle` is proved against it.

use vstd::prelude::*;

use crate::model::{MovieModel, views_of};
use crate::ops::{CreateMovie, OpResult, Operation, result_matches};
use crate::store::Store;
use crate::table::{contains_id, lookup, overwrite, unique_ids, without_id};

verus! {

/// How one operation relates the table before it (`s0`) to the table after
/// it (`s1`) and to its result:
/// - `Create` appends one row whose identifier was drawn fresh — not equal
///   to any identifier present — or fails leaving the table untouched when
///   the drawn identifier collides;
/// - `Read` leaves the table untouched and returns the row carrying the
///   requested identifier, failing exactly when there is none;
/// - `Update` overwrites the fields of the row carrying the identifier
///   wholesale (a no-op when absent) and always confirms;
/// - `Delete` removes the row carrying the identifier (a no-op when
///   absent) and always confirms;
/// - `ListAll` leaves the table untouched and returns every row in
///   insertion order.
pub open spec fn op_rel(
    s0: Seq<MovieModel>,
    op: Operation,
    s1: Seq<MovieModel>,
    r: OpResult,
) -> bool {
    match op {
        Operation::Create(f) => match r {
            OpResult::Created(m) => m@.fields == f@ && !contains_id(s0, m@.id) && s1 == s0.push(
                m@,
            ),
            OpResult::Failed => s1 == s0,
            _ => false,
        },
        Operation::Read(g) => s1 == s0 && match r {
            OpResult::Found(m) => lookup(s0, g.id@) == Some(m@),
            OpResult::Failed => lookup(s0, g.id@) is None,
            _ => false,
        },
        Operation::Update(u) => r is Updated && s1 == overwrite(s0, u.id@, u@.fields),
        Operation::Delete(d) => r is Deleted && s1 == without_id(s0, d.id@),
        Operation::ListAll(_) => s1 == s0 && match r {
            OpResult::Listed(v) => views_of(v@) == s0,
            _ => false,
        },
    }
}

/// Whether an operation's outcome is decided by the table alone — every
/// variant but `Create`, whose success also depends on the identifier
/// drawn for it. One part of `Create` is still owed: against an empty
/// table no drawn identifier can collide, so there creation must succeed.
pub open spec fn op_decided(s0: Seq<MovieModel>, op: Operation, r: OpResult) -> bool {
    match op {
        Operation::Create(_) => s0.len() == 0 ==> r is Created,
        Operation::Read(g) => r is Found <==> contains_id(s0, g.id@),
        Operation::Update(_) => r is Updated,
        Operation::Delete(_) => r is Deleted,
        Operation::ListAll(_) => r is Listed,
    }
}

/// Relies on uuid::Uuid::new_v4 and its text rendering: draws a random
/// version-4 UUID from the operating system's generator. Nothing is
/// assumed about which value comes back; the caller checks it against the
/// table instead.
#[verifier::external_body]
fn fresh_id() -> (r: String) {
    uuid::Uuid::new_v4().to_string()
}

/// A worker's executor: owns its store connection from creation to pool
/// shutdown, never sharing it.
pub struct DbExecutor(pub Store);

impl DbExecutor {
    /// The creation path once an identifier has been drawn for the new
    /// row: inserts and returns the stored row if and only if the
    /// identifier is fresh, and reports the collision otherwise, leaving
    /// the table untouched.
    pub fn handle_create_with(&mut self, f: &CreateMovie, id: String) -> (r: OpResult)
        ensures
            unique_ids(final(self).0@),
            r is Created <==> !contains_id(old(self).0@, id@),
            match r {
                OpResult::Created(m) => m@.id == id@ && m@.fields == f@ && final(self).0@ == old(
                    self,
                ).0@.push(m@),
                OpResult::Failed => final(self).0@ == old(self).0@,
                _ => false,
            },
    {
        let m = f.with_id(id);
        let stored = m.duplicate();
        match self.0.insert_row(m) {
            Ok(()) => OpResult::Created(stored),
            Err(_) => OpResult::Failed,
        }
    }

    /// One operation, handled to completion against this executor's
    /// connection: the result and the new table stand in `op_rel` to the
    /// old table, the result has its operation's shape, and the outcome is
    /// the one the table owes — for every variant but `Create`, whose
    /// success the random draw decides, except that a creation against an
    /// empty table must succeed.
    pub fn handle(&mut self, msg: &Operation) -> (r: OpResult)
        ensures
            unique_ids(final(self).0@),
            result_matches(*msg, r),
            op_rel(old(self).0@, *msg, final(self).0@, r),
            op_decided(old(self).0@, *msg, r),
    {
        match msg {
            Operation::Create(f) => {
                let id = fresh_id();
                self.handle_create_with(f, id)
            },
            Operation::Read(g) => match self.0.find_row(&g.id) {
                Some(m) => OpResult::Found(m),
                None => OpResult::Failed,
            },
            Operation::Update(u) => {
                let f = u.fields();
                self.0.update_row(&u.id, &f);
                OpResult::Updated
            },
            Operation::Delete(d) => {
                self.0.delete_row(&d.id);
                OpResult::Deleted
            },
            Operation::ListAll(_) => OpResult::Listed(self.0.load_all()),
        }
    }
}

} // verus!
