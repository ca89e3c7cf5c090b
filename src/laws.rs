//! Properties of the table operations that hold for every input.

use vstd::prelude::*;

use crate::movie::{
    can_refresh, created, merged, CreateMovieParams, Movie, Timestamp,
    UpdateMovieParams,
};
use crate::table::{
    after_create, after_delete, after_update, create_succeeds, lookup, table_wf, update_succeeds,
    TableState,
};

verus! {

/// One table operation, with the id drawn and the clock reading it is given.
pub ghost enum Call {
    Create { params: CreateMovieParams, id: u128, now: Timestamp },
    Update { id: u128, params: UpdateMovieParams, now: Timestamp },
    Delete { id: u128 },
}

/// Runs the operations in `calls` in order from `t`; yields the final table
/// and the ids of the movies that the successful creations returned.
pub open spec fn run(t: TableState, calls: Seq<Call>) -> (TableState, Seq<u128>)
    decreases calls.len(),
{
    if calls.len() == 0 {
        (t, Seq::<u128>::empty())
    } else {
        let (t1, ids) = run(t, calls.drop_last());
        match calls.last() {
            Call::Create { params, id, now } => if create_succeeds(t1, id) {
                (after_create(t1, params, id, now), ids.push(created(id, params, now).id))
            } else {
                (t1, ids)
            },
            Call::Update { id, params, now } => if update_succeeds(t1, id, params, now) {
                (after_update(t1, id, params, now), ids)
            } else {
                (t1, ids)
            },
            Call::Delete { id } => if t1.movies.contains_key(id) {
                (after_delete(t1, id), ids)
            } else {
                (t1, ids)
            },
        }
    }
}

/// Over any sequence of creations, updates and deletions, no two movies that
/// creations returned share an id, none reuses an id assigned before the
/// sequence began (deleted ones included), and every returned id is recorded
/// as assigned afterwards.
pub proof fn lemma_created_ids_unique(t: TableState, calls: Seq<Call>)
    ensures
        run(t, calls).1.no_duplicates(),
        forall|i: int| 0 <= i < run(t, calls).1.len() ==> {
            &&& !t.issued.contains(#[trigger] run(t, calls).1[i])
            &&& run(t, calls).0.issued.contains(run(t, calls).1[i])
        },
        t.issued.subset_of(run(t, calls).0.issued),
    decreases calls.len(),
{
    if calls.len() > 0 {
        lemma_created_ids_unique(t, calls.drop_last());
        let (t1, ids) = run(t, calls.drop_last());
        match calls.last() {
            Call::Create { params, id, now } => {
                if create_succeeds(t1, id) {
                    let ids2 = ids.push(id);
                    assert forall|i: int, j: int| 0 <= i < j < ids2.len() implies ids2[i] != ids2[j] by {
                        if j == ids.len() {
                            assert(t1.issued.contains(ids[i]));
                        }
                    }
                    assert forall|i: int| 0 <= i < ids2.len() implies !t.issued.contains(#[trigger] ids2[i]) by {
                        if i == ids.len() {
                            assert(!t1.issued.contains(id));
                        }
                    }
                }
            },
            Call::Update { .. } => {},
            Call::Delete { .. } => {},
        }
    }
}

/// An id that is assigned but not stored stays absent through any sequence of
/// operations.
pub proof fn lemma_absent_id_stays_absent(t: TableState, id: u128, calls: Seq<Call>)
    requires
        t.issued.contains(id),
        !t.movies.contains_key(id),
    ensures
        run(t, calls).0.issued.contains(id),
        !run(t, calls).0.movies.contains_key(id),
    decreases calls.len(),
{
    if calls.len() > 0 {
        lemma_absent_id_stays_absent(t, id, calls.drop_last());
    }
}

/// A movie just created is found under its id, equal to what creation
/// returned, and holds the requested fields with both timestamps equal.
pub proof fn lemma_create_round_trip(t: TableState, p: CreateMovieParams, id: u128, now: Timestamp)
    requires
        create_succeeds(t, id),
    ensures
        lookup(after_create(t, p, id, now), created(id, p, now).id) == Some(created(id, p, now)),
        created(id, p, now).title == p.title,
        created(id, p, now).director == p.director,
        created(id, p, now).release_date == p.release_date,
        created(id, p, now).ticket_price == p.ticket_price,
        created(id, p, now).created_at == created(id, p, now).updated_at,
{
}

/// Updating only the title of a stored movie changes the title, moves
/// `updated_at` strictly forward, and keeps every other field; the table
/// stores the result. (When `updated_at` is already the largest
/// representable instant and the clock is not past it, the update fails
/// instead; that case is left out.)
pub proof fn lemma_title_update(t: TableState, id: u128, title: String, now: Timestamp)
    requires
        t.movies.contains_key(id),
        can_refresh(t.movies[id].updated_at, now),
    ensures
        ({
            let p = UpdateMovieParams { title: Some(title), director: None, release_date: None, ticket_price: None };
            let m = t.movies[id];
            let r = merged(m, p, now);
            &&& update_succeeds(t, id, p, now)
            &&& r == Movie { title, updated_at: r.updated_at, ..m }
            &&& r.updated_at.micros > m.updated_at.micros
            &&& lookup(after_update(t, id, p, now), id) == Some(r)
        }),
{
}

/// An update with every field absent succeeds on any stored movie, returns it
/// unchanged (including `updated_at`) and leaves the table as it was.
pub proof fn lemma_empty_update(t: TableState, id: u128, now: Timestamp)
    requires
        t.movies.contains_key(id),
    ensures
        ({
            let p = UpdateMovieParams { title: None, director: None, release_date: None, ticket_price: None };
            &&& update_succeeds(t, id, p, now)
            &&& merged(t.movies[id], p, now) == t.movies[id]
            &&& after_update(t, id, p, now) == t
        }),
{
    let p = UpdateMovieParams { title: None, director: None, release_date: None, ticket_price: None };
    assert(t.movies.insert(id, merged(t.movies[id], p, now)) =~= t.movies);
}

/// After a stored movie is deleted, whatever operations follow, looking it
/// up finds nothing, deleting it again finds nothing to delete (and changes
/// nothing), and its id is never assigned again.
pub proof fn lemma_delete_terminal(t: TableState, id: u128, later: Seq<Call>)
    requires
        table_wf(t),
        t.movies.contains_key(id),
    ensures
        ({
            let t2 = run(after_delete(t, id), later).0;
            &&& lookup(t2, id) is None
            &&& !t2.movies.contains_key(id)
            &&& !create_succeeds(t2, id)
        }),
{
    lemma_absent_id_stays_absent(after_delete(t, id), id, later);
}

} // verus!
