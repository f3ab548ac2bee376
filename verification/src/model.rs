//! The persisted entity: a `Movie` row, all fields free text, keyed by an
//! `id` that the system generates at creation time and never changes.

use vstd::prelude::*;

verus! {

/// Mathematical value of the eight caller-supplied text fields of a record.
pub ghost struct FieldsModel {
    pub title: Seq<char>,
    pub rating: Seq<char>,
    pub category: Seq<char>,
    pub format: Seq<char>,
    pub aspect: Seq<char>,
    pub actors: Seq<char>,
    pub drawer: Seq<char>,
    pub column: Seq<char>,
}

/// Mathematical value of one stored row: its identifier and its fields.
pub ghost struct MovieModel {
    pub id: Seq<char>,
    pub fields: FieldsModel,
}

/// One catalog record as stored: a generated identifier plus the
/// caller-supplied description and shelf-location fields.
#[derive(Debug)]
pub struct Movie {
    pub id: String,
    pub title: String,
    pub rating: String,
    pub category: String,
    pub format: String,
    pub aspect: String,
    pub actors: String,
    pub drawer: String,
    pub column: String,
}

impl View for Movie {
    type V = MovieModel;

    open spec fn view(&self) -> MovieModel {
        MovieModel {
            id: self.id@,
            fields: FieldsModel {
                title: self.title@,
                rating: self.rating@,
                category: self.category@,
                format: self.format@,
                aspect: self.aspect@,
                actors: self.actors@,
                drawer: self.drawer@,
                column: self.column@,
            },
        }
    }
}

impl Movie {
    /// A deep copy whose mathematical value equals the original's.
    pub fn duplicate(&self) -> (r: Movie)
        ensures
            r@ == self@,
    {
        Movie {
            id: self.id.clone(),
            title: self.title.clone(),
            rating: self.rating.clone(),
            category: self.category.clone(),
            format: self.format.clone(),
            aspect: self.aspect.clone(),
            actors: self.actors.clone(),
            drawer: self.drawer.clone(),
            column: self.column.clone(),
        }
    }
}

/// The mathematical values of a sequence of rows.
pub open spec fn views_of(rows: Seq<Movie>) -> Seq<MovieModel> {
    Seq::new(rows.len(), |i: int| rows[i]@)
}

/// Deep-copies a vector of rows, preserving its mathematical value.
pub fn duplicate_all(rows: &Vec<Movie>) -> (r: Vec<Movie>)
    ensures
        views_of(r@) == views_of(rows@),
{
    let mut out: Vec<Movie> = Vec::new();
    let mut i: usize = 0;
    while i < rows.len()
        invariant
            i <= rows.len(),
            out@.len() == i,
            forall|j: int| 0 <= j < i ==> out@[j]@ == rows@[j]@,
        decreases rows.len() - i,
    {
        out.push(rows[i].duplicate());
        i = i + 1;
    }
    proof {
        assert(views_of(out@) =~= views_of(rows@));
    }
    out
}

} // verus!
