//! The row logic of the relational backend. The statements themselves run
//! elsewhere; these functions decide what to write and what each answer of the
//! database means for the caller.

use vstd::prelude::*;

use crate::clock::{fresh_id, now};
use crate::movie::{
    created, merge_update, merged, mergeable, new_movie, touches, CreateMovieParams, Movie, StoreError,
    Timestamp, UpdateMovieParams,
};

verus! {

/// The row to insert for a creation: a fresh random id, the requested fields,
/// and both timestamps set to the same current time.
pub fn insert_row(p: CreateMovieParams) -> (r: Movie)
    ensures
        r == created(r.id, p, r.created_at),
        r.created_at.micros >= 0,
{
    let id = fresh_id();
    let stamp = now();
    new_movie(id, p, stamp)
}

/// Decides an update from the row read for it (`None` when no row has the
/// id) and the clock reading `now`: the merged row to write back, or the
/// error to report.
pub fn plan_update(current: Option<Movie>, p: UpdateMovieParams, now: Timestamp) -> (r: Result<Movie, StoreError>)
    ensures
        current is None ==> (r matches Err(e) && e is NotFound),
        current matches Some(m) ==> {
            &&& (r is Ok <==> mergeable(m, p, now))
            &&& (r is Ok ==> r->Ok_0 == merged(m, p, now))
            &&& (r is Err ==> r->Err_0 is Backend)
        },
{
    match current {
        None => Err(StoreError::NotFound),
        Some(m) => merge_update(m, p, now),
    }
}

/// The row to write back for an update, read as `current`, at the current
/// time. A stored row always merges, unless a field is present and its
/// `updated_at` is already the last representable instant.
pub fn update_row(current: Option<Movie>, p: UpdateMovieParams) -> (r: Result<Movie, StoreError>)
    ensures
        current is None ==> (r matches Err(e) && e is NotFound),
        current matches Some(m) ==> (r is Ok <==> (touches(p) ==> m.updated_at.micros < i64::MAX)),
        current matches Some(m) ==> (r matches Ok(u) ==> exists|t: Timestamp| u == merged(m, p, t)),
        current is Some && r is Err ==> r->Err_0 is Backend,
{
    let stamp = now();
    plan_update(current, p, stamp)
}

/// What a statement that returns the affected row (an update or a delete)
/// means: that row, or `NotFound` when no row matched.
pub fn returned_row(affected: Option<Movie>) -> (r: Result<Movie, StoreError>)
    ensures
        affected matches Some(m) ==> (r matches Ok(d) && d == m),
        affected is None ==> (r matches Err(e) && e is NotFound),
{
    match affected {
        Some(m) => Ok(m),
        None => Err(StoreError::NotFound),
    }
}

/// Reads the answer of the liveness query `SELECT TRUE`: live only when the
/// query ran and answered true.
pub fn liveness(answer: Option<Option<bool>>) -> (r: bool)
    ensures
        r == (answer == Some(Some(true))),
{
    match answer {
        Some(Some(b)) => b,
        _ => false,
    }
}

} // verus!
