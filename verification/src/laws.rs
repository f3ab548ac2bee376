//! The laws of the operation vocabulary, stated over `op_rel` — the
//! denotation every handled operation is proved to satisfy — and the
//! table model. Each law holds for every table the store can reach, since
//! identifiers stay unique from the empty table through every operation.

use vstd::prelude::*;

use crate::executor::op_rel;
use crate::model::{Movie, MovieModel, views_of};
use crate::ops::{CreateMovie, DeleteMovie, GetAllMovies, OpResult, Operation, UpdateMovie};
use crate::table::{
    contains_id, lemma_contains_overwrite, lemma_contains_push, lemma_contains_without,
    lemma_lookup_overwrite_hit, lemma_lookup_push_fresh, lemma_lookup_without_hit,
    lemma_unique_overwrite, lemma_unique_push, lookup, unique_ids, without_id,
};

verus! {

/// A successful creation stores its row under a freshly drawn identifier:
/// one not equal to any identifier present before it, with the submitted
/// fields kept whole and everything else untouched.
pub proof fn law_create_fresh_id(
    s0: Seq<MovieModel>,
    f: CreateMovie,
    s1: Seq<MovieModel>,
    m: Movie,
)
    requires
        op_rel(s0, Operation::Create(f), s1, OpResult::Created(m)),
    ensures
        !contains_id(s0, m@.id),
        m@.fields == f@,
        s1 == s0.push(m@),
{
}

/// Round trip: reading a record straight after its successful creation,
/// with no intervening update, returns exactly the created row —
/// identifier and all fields.
pub proof fn law_create_then_read(
    s0: Seq<MovieModel>,
    f: CreateMovie,
    s1: Seq<MovieModel>,
    m: Movie,
)
    requires
        unique_ids(s0),
        op_rel(s0, Operation::Create(f), s1, OpResult::Created(m)),
    ensures
        unique_ids(s1),
        lookup(s1, m@.id) == Some(m@),
        m@.fields == f@,
{
    lemma_unique_push(s0, m@);
    lemma_lookup_push_fresh(s0, m@);
}

/// An update followed by a read of the same identifier returns the
/// replacement fields, overwriting the prior values entirely — no
/// field-by-field merge.
pub proof fn law_update_then_read(s0: Seq<MovieModel>, u: UpdateMovie, s1: Seq<MovieModel>)
    requires
        unique_ids(s0),
        contains_id(s0, u.id@),
        op_rel(s0, Operation::Update(u), s1, OpResult::Updated),
    ensures
        unique_ids(s1),
        lookup(s1, u.id@) == Some(MovieModel { id: u.id@, fields: u@.fields }),
{
    lemma_unique_overwrite(s0, u.id@, u@.fields);
    lemma_lookup_overwrite_hit(s0, u.id@, u@.fields);
}

/// A deletion followed by a read of the same identifier finds nothing;
/// and deleting an identifier that is not present is a defined outcome —
/// a successful no-op that leaves the table exactly as it was.
pub proof fn law_delete_then_read(s0: Seq<MovieModel>, d: DeleteMovie, s1: Seq<MovieModel>)
    requires
        unique_ids(s0),
        op_rel(s0, Operation::Delete(d), s1, OpResult::Deleted),
    ensures
        lookup(s1, d.id@) is None,
        !contains_id(s0, d.id@) ==> s1 == s0,
{
    lemma_lookup_without_hit(s0, d.id@);
}

/// A creation adds exactly its new identifier to the set of identifiers
/// present: no other identifier appears or disappears.
pub proof fn law_ids_after_create(
    s0: Seq<MovieModel>,
    f: CreateMovie,
    s1: Seq<MovieModel>,
    m: Movie,
    x: Seq<char>,
)
    requires
        op_rel(s0, Operation::Create(f), s1, OpResult::Created(m)),
    ensures
        contains_id(s1, x) <==> (contains_id(s0, x) || x == m@.id),
{
    lemma_contains_push(s0, m@, x);
}

/// A deletion takes exactly its identifier away from the set of
/// identifiers present: no other identifier appears or disappears.
pub proof fn law_ids_after_delete(
    s0: Seq<MovieModel>,
    d: DeleteMovie,
    s1: Seq<MovieModel>,
    x: Seq<char>,
)
    requires
        unique_ids(s0),
        op_rel(s0, Operation::Delete(d), s1, OpResult::Deleted),
    ensures
        contains_id(s1, x) <==> (contains_id(s0, x) && x != d.id@),
{
    lemma_contains_without(s0, d.id@, x);
}

/// An update changes no identifier: the same records are present after it.
pub proof fn law_ids_after_update(
    s0: Seq<MovieModel>,
    u: UpdateMovie,
    s1: Seq<MovieModel>,
    x: Seq<char>,
)
    requires
        op_rel(s0, Operation::Update(u), s1, OpResult::Updated),
    ensures
        contains_id(s1, x) <==> contains_id(s0, x),
{
    lemma_contains_overwrite(s0, u.id@, u@.fields, x);
}

/// A listing returns exactly the stored rows: every identifier present —
/// created and not yet deleted — appears, nothing else does, no
/// identifier twice, and the table is left untouched.
pub proof fn law_list_exact(
    s0: Seq<MovieModel>,
    s1: Seq<MovieModel>,
    v: Vec<Movie>,
    x: Seq<char>,
)
    requires
        unique_ids(s0),
        op_rel(s0, Operation::ListAll(GetAllMovies), s1, OpResult::Listed(v)),
    ensures
        s1 == s0,
        unique_ids(views_of(v@)),
        contains_id(views_of(v@), x) <==> contains_id(s0, x),
{
}

/// A chain of creations: `tables` are the successive states of the
/// table, in the order in which the workers happened to finish the
/// creations; step `i` created the payload `fs[i]` and returned the
/// stored row `ms[i]`.
pub open spec fn create_chain(
    tables: Seq<Seq<MovieModel>>,
    fs: Seq<CreateMovie>,
    ms: Seq<Movie>,
) -> bool {
    &&& tables.len() == fs.len() + 1
    &&& ms.len() == fs.len()
    &&& forall|i: int|
        0 <= i < fs.len() ==> op_rel(
            #[trigger] tables[i],
            Operation::Create(fs[i]),
            tables[i + 1],
            OpResult::Created(ms[i]),
        )
}

/// Whether `x` is the identifier of one of the rows `ms`.
pub open spec fn created_id(ms: Seq<Movie>, x: Seq<char>) -> bool {
    exists|i: int| 0 <= i < ms.len() && ms[i]@.id == x
}

/// However many creations complete concurrently, in whichever order the
/// workers finish them: every one succeeds under its own fresh
/// identifier, the identifiers are pairwise distinct, each stored row
/// keeps its submitted fields whole, and the table ends with exactly the
/// new rows added — no duplicates, no omissions, whatever the
/// interleaving.
pub proof fn law_concurrent_creates(
    tables: Seq<Seq<MovieModel>>,
    fs: Seq<CreateMovie>,
    ms: Seq<Movie>,
)
    requires
        create_chain(tables, fs, ms),
        unique_ids(tables.first()),
    ensures
        unique_ids(tables.last()),
        forall|i: int|
            0 <= i < ms.len() ==> !contains_id(tables.first(), (#[trigger] ms[i])@.id)
                && ms[i]@.fields == fs[i]@,
        forall|i: int, j: int|
            0 <= i < j < ms.len() ==> (#[trigger] ms[i])@.id != (#[trigger] ms[j])@.id,
        forall|x: Seq<char>|
            #[trigger] contains_id(tables.last(), x) <==> (contains_id(tables.first(), x)
                || created_id(ms, x)),
    decreases fs.len(),
{
    if fs.len() == 0 {
        assert(tables.last() == tables.first());
        assert forall|x: Seq<char>|
            #[trigger] contains_id(tables.last(), x) <==> (contains_id(tables.first(), x)
                || created_id(ms, x)) by {}
    } else {
        let n = fs.len() - 1;
        let tb = tables.drop_last();
        let fb = fs.drop_last();
        let mb = ms.drop_last();
        assert(create_chain(tb, fb, mb)) by {
            assert forall|i: int|
                0 <= i < fb.len() implies op_rel(
                #[trigger] tb[i],
                Operation::Create(fb[i]),
                tb[i + 1],
                OpResult::Created(mb[i]),
            ) by {
                assert(tb[i] == tables[i] && tb[i + 1] == tables[i + 1]);
                assert(fb[i] == fs[i] && mb[i] == ms[i]);
            }
        }
        assert(tb.first() == tables.first());
        law_concurrent_creates(tb, fb, mb);
        let mid = tb.last();
        let last = ms[n];
        assert(op_rel(tables[n], Operation::Create(fs[n]), tables[n + 1], OpResult::Created(last)));
        assert(mid == tables[n] && tables.last() == tables[n + 1]);
        assert(tables.last() == mid.push(last@) && !contains_id(mid, last@.id));
        lemma_unique_push(mid, last@);
        // The last identifier is fresh in `mid`, hence neither an old one
        // nor one of the earlier new ones.
        assert(!contains_id(tables.first(), last@.id) && !created_id(mb, last@.id)) by {
            if contains_id(tables.first(), last@.id) || created_id(mb, last@.id) {
                assert(contains_id(mid, last@.id));
            }
        }
        assert forall|i: int|
            0 <= i < ms.len() implies !contains_id(tables.first(), (#[trigger] ms[i])@.id)
            && ms[i]@.fields == fs[i]@ by {
            if i < n {
                assert(ms[i] == mb[i] && fs[i] == fb[i]);
            } else {
                assert(ms[i] == last);
            }
        }
        assert forall|i: int, j: int|
            0 <= i < j < ms.len() implies (#[trigger] ms[i])@.id != (#[trigger] ms[j])@.id by {
            if j < n {
                assert(ms[i] == mb[i] && ms[j] == mb[j]);
            } else {
                assert(ms[i] == mb[i]);
                assert(created_id(mb, ms[i]@.id));
            }
        }
        assert forall|x: Seq<char>|
            #[trigger] contains_id(tables.last(), x) <==> (contains_id(tables.first(), x)
                || created_id(ms, x)) by {
            lemma_contains_push(mid, last@, x);
            if created_id(ms, x) {
                let i = choose|i: int| 0 <= i < ms.len() && ms[i]@.id == x;
                if i < n {
                    assert(mb[i]@.id == x);
                    assert(created_id(mb, x));
                }
            }
            if created_id(mb, x) {
                let i = choose|i: int| 0 <= i < mb.len() && mb[i]@.id == x;
                assert(ms[i]@.id == x);
                assert(created_id(ms, x));
            }
            if last@.id == x {
                assert(created_id(ms, x));
            }
        }
    }
}

} // verus!
