//! The record store client: a blocking table of rows behind the operation
//! vocabulary. Each method performs exactly one round trip against the
//! table and returns the typed success value or a classified failure;
//! identifiers stay unique and insertion order is kept throughout.

use vstd::prelude::*;
use vstd::pervasive::VecAdditionalExecFns;

use crate::model::{Movie, MovieModel, duplicate_all, views_of};
use crate::ops::CreateMovie;
use crate::table::{
    contains_id, lemma_row_index_unique, lemma_unique_overwrite, lemma_unique_push,
    lemma_unique_remove, lookup, overwrite, row_index, unique_ids, without_id,
};

verus! {

/// A classified store failure.
#[derive(Debug, PartialEq, Eq)]
pub enum StoreError {
    /// A row with the given identifier is already present: the table's
    /// uniqueness constraint rejects the insertion.
    DuplicateId,
}

/// The table of rows, in insertion order, with identifiers unique.
pub struct Store {
    rows: Vec<Movie>,
}

impl View for Store {
    type V = Seq<MovieModel>;

    closed spec fn view(&self) -> Seq<MovieModel> {
        views_of(self.rows@)
    }
}

/// The index of the row of `rows` carrying `id`, if one is present.
fn scan(rows: &Vec<Movie>, id: &String) -> (r: Option<usize>)
    requires
        unique_ids(views_of(rows@)),
    ensures
        match r {
            Some(i) => i < rows@.len() && views_of(rows@)[i as int].id == id@ && lookup(
                views_of(rows@),
                id@,
            ) == Some(views_of(rows@)[i as int]),
            None => lookup(views_of(rows@), id@) == None::<MovieModel>,
        },
{
    let ghost table = views_of(rows@);
    let mut i: usize = 0;
    while i < rows.len()
        invariant
            i <= rows.len(),
            table == views_of(rows@),
            unique_ids(table),
            forall|j: int| 0 <= j < i ==> table[j].id != id@,
        decreases rows.len() - i,
    {
        if rows[i].id == *id {
            proof {
                lemma_row_index_unique(table, id@, i as int);
            }
            return Some(i);
        }
        i = i + 1;
    }
    proof {
        assert(!contains_id(table, id@));
    }
    None
}

impl Store {
    /// No two rows ever share an identifier.
    #[verifier::type_invariant]
    pub open spec fn wf(self) -> bool {
        unique_ids(self@)
    }

    /// An empty table: the state the schema bootstrap hands over.
    pub fn new() -> (s: Store)
        ensures
            s@ == Seq::<MovieModel>::empty(),
            unique_ids(s@),
    {
        let s = Store { rows: Vec::new() };
        proof {
            assert(s@ =~= Seq::<MovieModel>::empty());
        }
        s
    }

    /// One insertion round trip: appends the row if its identifier is
    /// fresh, and reports the uniqueness-constraint violation otherwise,
    /// leaving the table untouched.
    pub fn insert_row(&mut self, m: Movie) -> (r: Result<(), StoreError>)
        ensures
            unique_ids(final(self)@),
            match r {
                Ok(()) => !contains_id(old(self)@, m@.id) && final(self)@ == old(self)@.push(m@),
                Err(StoreError::DuplicateId) => contains_id(old(self)@, m@.id) && final(self)@
                    == old(self)@,
            },
    {
        proof {
            use_type_invariant(&*self);
        }
        let mut tmp = Store { rows: Vec::new() };
        core::mem::swap(self, &mut tmp);
        let Store { mut rows } = tmp;
        let ghost table = views_of(rows@);
        let r = match scan(&rows, &m.id) {
            Some(_) => Err(StoreError::DuplicateId),
            None => {
                proof {
                    lemma_unique_push(table, m@);
                    assert(views_of(rows@.push(m)) =~= table.push(m@));
                }
                rows.push(m);
                Ok(())
            },
        };
        *self = Store { rows };
        r
    }

    /// One read round trip: the row carrying `id`, or nothing.
    pub fn find_row(&self, id: &String) -> (r: Option<Movie>)
        ensures
            unique_ids(self@),
            match r {
                Some(m) => lookup(self@, id@) == Some(m@),
                None => lookup(self@, id@) == None::<MovieModel>,
            },
    {
        proof {
            use_type_invariant(&*self);
        }
        match scan(&self.rows, id) {
            Some(i) => Some(self.rows[i].duplicate()),
            None => None,
        }
    }

    /// One update round trip: overwrites all fields of the row carrying
    /// `id` and reports how many rows were affected — zero when the
    /// identifier is absent, in which case the table is untouched.
    pub fn update_row(&mut self, id: &String, f: &CreateMovie) -> (n: usize)
        ensures
            unique_ids(final(self)@),
            final(self)@ == overwrite(old(self)@, id@, f@),
            n == if contains_id(old(self)@, id@) {
                1int
            } else {
                0int
            },
    {
        proof {
            use_type_invariant(&*self);
        }
        let mut tmp = Store { rows: Vec::new() };
        core::mem::swap(self, &mut tmp);
        let Store { mut rows } = tmp;
        let ghost table = views_of(rows@);
        let n: usize = match scan(&rows, id) {
            Some(i) => {
                let replacement = Movie {
                    id: id.clone(),
                    title: f.title.clone(),
                    rating: f.rating.clone(),
                    category: f.category.clone(),
                    format: f.format.clone(),
                    aspect: f.aspect.clone(),
                    actors: f.actors.clone(),
                    drawer: f.drawer.clone(),
                    column: f.column.clone(),
                };
                proof {
                    lemma_unique_overwrite(table, id@, f@);
                    assert(views_of(rows@.update(i as int, replacement)) =~= overwrite(
                        table,
                        id@,
                        f@,
                    ));
                }
                rows.set(i, replacement);
                1
            },
            None => {
                proof {
                    assert(overwrite(table, id@, f@) =~= table);
                }
                0
            },
        };
        *self = Store { rows };
        n
    }

    /// One delete round trip: removes the row carrying `id` and reports
    /// how many rows were affected — zero, not an error, when the
    /// identifier is absent.
    pub fn delete_row(&mut self, id: &String) -> (n: usize)
        ensures
            unique_ids(final(self)@),
            final(self)@ == without_id(old(self)@, id@),
            n == if contains_id(old(self)@, id@) {
                1int
            } else {
                0int
            },
    {
        proof {
            use_type_invariant(&*self);
        }
        let mut tmp = Store { rows: Vec::new() };
        core::mem::swap(self, &mut tmp);
        let Store { mut rows } = tmp;
        let ghost table = views_of(rows@);
        let n: usize = match scan(&rows, id) {
            Some(i) => {
                proof {
                    lemma_row_index_unique(table, id@, i as int);
                    lemma_unique_remove(table, i as int);
                    assert(views_of(rows@.remove(i as int)) =~= table.remove(i as int));
                }
                rows.remove(i);
                1
            },
            None => 0,
        };
        *self = Store { rows };
        n
    }

    /// One full-scan round trip: a copy of every row, in insertion order.
    pub fn load_all(&self) -> (r: Vec<Movie>)
        ensures
            unique_ids(self@),
            views_of(r@) == self@,
    {
        proof {
            use_type_invariant(&*self);
        }
        duplicate_all(&self.rows)
    }
}

} // verus!
