//! The closed vocabulary of store operations and their typed results.
//!
//! Each request the transport layer can make is one variant of `Operation`,
//! carrying its input payload; each variant has exactly one well-typed
//! success result, and every store-layer failure collapses into the single
//! `Failed` result at this boundary.

use vstd::prelude::*;

use crate::model::{FieldsModel, Movie, MovieModel};

verus! {

/// Payload of a creation request: every record field except the identifier,
/// which the system generates.
#[derive(Debug)]
pub struct CreateMovie {
    pub title: String,
    pub rating: String,
    pub category: String,
    pub format: String,
    pub aspect: String,
    pub actors: String,
    pub drawer: String,
    pub column: String,
}

impl View for CreateMovie {
    type V = FieldsModel;

    open spec fn view(&self) -> FieldsModel {
        FieldsModel {
            title: self.title@,
            rating: self.rating@,
            category: self.category@,
            format: self.format@,
            aspect: self.aspect@,
            actors: self.actors@,
            drawer: self.drawer@,
            column: self.column@,
        }
    }
}

impl CreateMovie {
    /// The row this payload describes, under a given identifier.
    pub fn with_id(&self, id: String) -> (m: Movie)
        ensures
            m@.id == id@,
            m@.fields == self@,
    {
        Movie {
            id,
            title: self.title.clone(),
            rating: self.rating.clone(),
            category: self.category.clone(),
            format: self.format.clone(),
            aspect: self.aspect.clone(),
            actors: self.actors.clone(),
            drawer: self.drawer.clone(),
            column: self.column.clone(),
        }
    }
}

/// Payload of a deletion request: the identifier of the row to remove.
#[derive(Debug)]
pub struct DeleteMovie {
    pub id: String,
}

/// Payload of a single-row read request.
#[derive(Debug)]
pub struct GetMovie {
    pub id: String,
}

/// Payload of an update request: the identifier of the row to overwrite
/// and the full replacement for its fields.
#[derive(Debug)]
pub struct UpdateMovie {
    pub id: String,
    pub title: String,
    pub rating: String,
    pub category: String,
    pub format: String,
    pub aspect: String,
    pub actors: String,
    pub drawer: String,
    pub column: String,
}

impl View for UpdateMovie {
    type V = MovieModel;

    open spec fn view(&self) -> MovieModel {
        MovieModel {
            id: self.id@,
            fields: FieldsModel {
                title: self.title@,
                rating: self.rating@,
                category: self.category@,
                format: self.format@,
                aspect: self.aspect@,
                actors: self.actors@,
                drawer: self.drawer@,
                column: self.column@,
            },
        }
    }
}

impl UpdateMovie {
    /// The replacement fields this payload carries, without the identifier.
    pub fn fields(&self) -> (f: CreateMovie)
        ensures
            f@ == self@.fields,
    {
        CreateMovie {
            title: self.title.clone(),
            rating: self.rating.clone(),
            category: self.category.clone(),
            format: self.format.clone(),
            aspect: self.aspect.clone(),
            actors: self.actors.clone(),
            drawer: self.drawer.clone(),
            column: self.column.clone(),
        }
    }
}

/// Payload of a request for every stored row.
#[derive(Debug)]
pub struct GetAllMovies;

/// One typed unit of store work.
#[derive(Debug)]
pub enum Operation {
    Create(CreateMovie),
    Read(GetMovie),
    Update(UpdateMovie),
    Delete(DeleteMovie),
    ListAll(GetAllMovies),
}

/// The typed outcome of one operation: the success value its variant owes,
/// or the single collapsed failure signal.
#[derive(Debug)]
pub enum OpResult {
    /// A row was created; carries the stored row, generated id included.
    Created(Movie),
    /// The row a read asked for.
    Found(Movie),
    /// An update ran; zero or one rows were overwritten.
    Updated,
    /// A deletion ran; zero or one rows were removed.
    Deleted,
    /// Every stored row, in insertion order.
    Listed(Vec<Movie>),
    /// The collapsed store-failure signal.
    Failed,
}

/// Whether a result has the one shape its operation's variant allows:
/// only creation and single-row reads can fail at the store, and every
/// other variant owes exactly its confirmation or payload.
pub open spec fn result_matches(op: Operation, r: OpResult) -> bool {
    match op {
        Operation::Create(_) => r is Created || r is Failed,
        Operation::Read(_) => r is Found || r is Failed,
        Operation::Update(_) => r is Updated,
        Operation::Delete(_) => r is Deleted,
        Operation::ListAll(_) => r is Listed,
    }
}

} // verus!
