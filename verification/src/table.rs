//! The mathematical model of the record table: a sequence of rows in
//! insertion order, keyed by unique identifiers, together with the
//! transition functions that the store operations denote and the lemmas
//! relating lookups to those transitions.

use vstd::prelude::*;

use crate::model::{FieldsModel, MovieModel};

verus! {

/// Whether some row of `rows` carries the identifier `id`.
pub open spec fn contains_id(rows: Seq<MovieModel>, id: Seq<char>) -> bool {
    exists|i: int| 0 <= i < rows.len() && rows[i].id == id
}

/// The index of the row carrying `id` (meaningful only when present and
/// identifiers are unique).
pub open spec fn row_index(rows: Seq<MovieModel>, id: Seq<char>) -> int {
    choose|i: int| 0 <= i < rows.len() && rows[i].id == id
}

/// The row carrying `id`, if any: what a single-row read returns.
pub open spec fn lookup(rows: Seq<MovieModel>, id: Seq<char>) -> Option<MovieModel> {
    if contains_id(rows, id) {
        Some(rows[row_index(rows, id)])
    } else {
        None
    }
}

/// The table's invariant: no two rows share an identifier.
pub open spec fn unique_ids(rows: Seq<MovieModel>) -> bool {
    forall|i: int, j: int| 0 <= i < j < rows.len() ==> rows[i].id != rows[j].id
}

/// The update transition: every row carrying `id` (at most one, under the
/// invariant) has its fields replaced wholesale by `f`; all other rows and
/// the order are untouched.
pub open spec fn overwrite(rows: Seq<MovieModel>, id: Seq<char>, f: FieldsModel) -> Seq<
    MovieModel,
> {
    Seq::new(
        rows.len(),
        |i: int|
            if rows[i].id == id {
                MovieModel { id: id, fields: f }
            } else {
                rows[i]
            },
    )
}

/// The delete transition: the row carrying `id` leaves, the order of the
/// rest is kept; deleting an absent identifier changes nothing.
pub open spec fn without_id(rows: Seq<MovieModel>, id: Seq<char>) -> Seq<MovieModel> {
    if contains_id(rows, id) {
        rows.remove(row_index(rows, id))
    } else {
        rows
    }
}

/// Inserting a row with a fresh identifier keeps identifiers unique.
pub proof fn lemma_unique_push(rows: Seq<MovieModel>, m: MovieModel)
    requires
        unique_ids(rows),
        !contains_id(rows, m.id),
    ensures
        unique_ids(rows.push(m)),
{
    let out = rows.push(m);
    assert forall|i: int, j: int| 0 <= i < j < out.len() implies out[i].id != out[j].id by {
        if j == rows.len() {
            assert(out[i] == rows[i]);
            if out[i].id == m.id {
                assert(contains_id(rows, m.id));
            }
        }
    }
}

/// An update keeps identifiers unique: it preserves every row's identifier.
pub proof fn lemma_unique_overwrite(rows: Seq<MovieModel>, id: Seq<char>, f: FieldsModel)
    requires
        unique_ids(rows),
    ensures
        unique_ids(overwrite(rows, id, f)),
        forall|i: int| 0 <= i < rows.len() ==> #[trigger] overwrite(rows, id, f)[i].id == rows[i].id,
{
}

/// Removing any row keeps identifiers unique.
pub proof fn lemma_unique_remove(rows: Seq<MovieModel>, k: int)
    requires
        unique_ids(rows),
        0 <= k < rows.len(),
    ensures
        unique_ids(rows.remove(k)),
{
    let out = rows.remove(k);
    assert forall|i: int, j: int| 0 <= i < j < out.len() implies out[i].id != out[j].id by {
        let i0 = if i < k { i } else { i + 1 };
        let j0 = if j < k { j } else { j + 1 };
        assert(out[i] == rows[i0]);
        assert(out[j] == rows[j0]);
    }
}

/// Which identifiers an insertion leaves present: the old ones and the new.
pub proof fn lemma_contains_push(rows: Seq<MovieModel>, m: MovieModel, x: Seq<char>)
    ensures
        contains_id(rows.push(m), x) <==> (contains_id(rows, x) || m.id == x),
{
    let out = rows.push(m);
    if contains_id(rows, x) {
        let i = choose|i: int| 0 <= i < rows.len() && rows[i].id == x;
        assert(out[i].id == x);
    }
    if m.id == x {
        assert(out[rows.len() as int].id == x);
    }
    if contains_id(out, x) && !(m.id == x) {
        let i = choose|i: int| 0 <= i < out.len() && out[i].id == x;
        assert(rows[i].id == x);
    }
}

/// An update changes no identifier: the same rows are present after it.
pub proof fn lemma_contains_overwrite(
    rows: Seq<MovieModel>,
    id: Seq<char>,
    f: FieldsModel,
    x: Seq<char>,
)
    ensures
        contains_id(overwrite(rows, id, f), x) <==> contains_id(rows, x),
{
    let out = overwrite(rows, id, f);
    assert(forall|i: int| 0 <= i < rows.len() ==> #[trigger] out[i].id == rows[i].id);
    if contains_id(rows, x) {
        let i = choose|i: int| 0 <= i < rows.len() && rows[i].id == x;
        assert(out[i].id == x);
    }
    if contains_id(out, x) {
        let i = choose|i: int| 0 <= i < out.len() && out[i].id == x;
        assert(rows[i].id == x);
    }
}

/// Which identifiers a deletion leaves present: the old ones except the
/// deleted one.
pub proof fn lemma_contains_without(rows: Seq<MovieModel>, id: Seq<char>, x: Seq<char>)
    requires
        unique_ids(rows),
    ensures
        contains_id(without_id(rows, id), x) <==> (contains_id(rows, x) && x != id),
{
    if contains_id(rows, id) {
        let k = row_index(rows, id);
        assert(0 <= k < rows.len() && rows[k].id == id);
        let out = rows.remove(k);
        assert forall|i: int| 0 <= i < out.len() implies #[trigger] out[i]
            == rows[if i < k { i } else { i + 1 }] by {}
        if contains_id(rows, x) && x != id {
            let i = choose|i: int| 0 <= i < rows.len() && rows[i].id == x;
            assert(i != k);
            let i2 = if i < k { i } else { i - 1 };
            assert(out[i2].id == x);
        }
        if contains_id(out, x) {
            let i = choose|i: int| 0 <= i < out.len() && out[i].id == x;
            let i0 = if i < k { i } else { i + 1 };
            assert(rows[i0].id == x);
            if x == id {
                assert(rows[i0].id == rows[k].id);
                assert(i0 != k);
                assert(false);
            }
        }
    }
}

/// Under unique identifiers, any index whose row carries `id` is the one
/// `row_index` denotes.
pub proof fn lemma_row_index_unique(rows: Seq<MovieModel>, id: Seq<char>, i: int)
    requires
        unique_ids(rows),
        0 <= i < rows.len(),
        rows[i].id == id,
    ensures
        contains_id(rows, id),
        row_index(rows, id) == i,
        lookup(rows, id) == Some(rows[i]),
{
    assert(contains_id(rows, id));
    let k = row_index(rows, id);
    assert(0 <= k < rows.len() && rows[k].id == id);
    if k != i {
        if k < i {
            assert(rows[k].id != rows[i].id);
        } else {
            assert(rows[i].id != rows[k].id);
        }
        assert(false);
    }
}

/// Reading a freshly inserted row returns exactly that row.
pub proof fn lemma_lookup_push_fresh(rows: Seq<MovieModel>, m: MovieModel)
    requires
        unique_ids(rows),
        !contains_id(rows, m.id),
    ensures
        lookup(rows.push(m), m.id) == Some(m),
{
    let out = rows.push(m);
    lemma_unique_push(rows, m);
    lemma_row_index_unique(out, m.id, rows.len() as int);
}

/// Reading an updated row returns the replacement fields, wholesale.
pub proof fn lemma_lookup_overwrite_hit(rows: Seq<MovieModel>, id: Seq<char>, f: FieldsModel)
    requires
        unique_ids(rows),
        contains_id(rows, id),
    ensures
        lookup(overwrite(rows, id, f), id) == Some(MovieModel { id: id, fields: f }),
{
    let out = overwrite(rows, id, f);
    lemma_unique_overwrite(rows, id, f);
    let i = row_index(rows, id);
    assert(rows[i].id == id);
    assert(out[i] == MovieModel { id: id, fields: f });
    lemma_row_index_unique(out, id, i);
}

/// Reading a deleted identifier finds nothing.
pub proof fn lemma_lookup_without_hit(rows: Seq<MovieModel>, id: Seq<char>)
    requires
        unique_ids(rows),
    ensures
        lookup(without_id(rows, id), id) == None::<MovieModel>,
{
    lemma_contains_without(rows, id, id);
}

} // verus!
