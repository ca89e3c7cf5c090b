//! The in-memory backend: a movie table shared between callers behind a
//! reader/writer lock. Reads take the lock shared, so they run side by side;
//! writes take it exclusively.

use std::sync::Arc;
use vstd::prelude::*;

use crate::clock::{fresh_id, now};
use crate::movie::{created, merged, touches, CreateMovieParams, Movie, StoreError, Timestamp, UpdateMovieParams};
use crate::table::MovieTable;

verus! {

/// The table behind parking_lot's reader/writer lock. Verus refuses the
/// declaration of the lock's guard types, whose bound names an outside trait,
/// so the lock is held here, out of Verus's sight, and reached through the
/// functions below.
#[verifier::external_body]
struct LockedTable {
    lock: parking_lot::RwLock<MovieTable>,
}

/// Shared access to a `LockedTable`, held by a parking_lot read guard.
#[verifier::external_body]
struct SharedAccess<'a> {
    guard: parking_lot::RwLockReadGuard<'a, MovieTable>,
}

/// Exclusive access to a `LockedTable`, held by a parking_lot write guard.
#[verifier::external_body]
struct ExclusiveAccess<'a> {
    guard: parking_lot::RwLockWriteGuard<'a, MovieTable>,
}

/// Relies on parking_lot::RwLock::new: an unlocked lock that owns `t`.
#[verifier::external_body]
fn new_lock(t: MovieTable) -> LockedTable {
    LockedTable { lock: parking_lot::RwLock::new(t) }
}

/// Relies on parking_lot::RwLock::read: waits until no writer holds the lock,
/// then holds it shared until the access is dropped.
#[verifier::external_body]
fn lock_shared(l: &LockedTable) -> SharedAccess<'_> {
    SharedAccess { guard: l.lock.read() }
}

/// Relies on parking_lot::RwLock::write: waits until no reader or writer holds
/// the lock, then holds it exclusively until the access is dropped.
#[verifier::external_body]
fn lock_exclusive(l: &LockedTable) -> ExclusiveAccess<'_> {
    ExclusiveAccess { guard: l.lock.write() }
}

/// Relies on parking_lot's RwLockReadGuard dereference: the table that the lock guards.
#[verifier::external_body]
fn shared_table<'a>(g: &'a SharedAccess<'_>) -> &'a MovieTable {
    &*g.guard
}

/// Relies on parking_lot's RwLockWriteGuard mutable dereference: the table that the lock guards.
#[verifier::external_body]
fn exclusive_table<'a>(g: &'a mut ExclusiveAccess<'_>) -> &'a mut MovieTable {
    &mut *g.guard
}

/// Relies on Arc::clone: the clone points to the same allocation as `a`.
#[verifier::external_body]
fn share(a: &Arc<LockedTable>) -> (r: Arc<LockedTable>)
    ensures
        r == *a,
{
    Arc::clone(a)
}

/// The top-level in-memory store: always live, and vending one shared movie store.
#[derive(Clone)]
pub struct MemoryStore {
    movie_store: MemoryMovieStore,
}

impl MemoryStore {
    /// The handle that this store hands out copies of.
    pub closed spec fn handle(&self) -> MemoryMovieStore {
        self.movie_store
    }

    /// A store over an empty table.
    pub fn new() -> MemoryStore {
        let movie_store = MemoryMovieStore::new();
        MemoryStore { movie_store }
    }

    /// The in-memory store needs no connection, so it is always live.
    pub fn is_connected(&self) -> (r: bool)
        ensures
            r,
    {
        true
    }

    /// A handle to the movie store; every handle shares the one table.
    pub fn movie_store(&self) -> (r: MemoryMovieStore)
        ensures
            r.same_table(&self.handle()),
    {
        self.movie_store.clone()
    }
}

/// A handle to a movie table shared by all clones of the handle.
pub struct MemoryMovieStore {
    movies: Arc<LockedTable>,
}

impl Clone for MemoryMovieStore {
    fn clone(&self) -> (r: Self)
        ensures
            r.same_table(self),
    {
        MemoryMovieStore { movies: share(&self.movies) }
    }
}

impl MemoryMovieStore {
    /// Whether the two handles reach the same table.
    pub closed spec fn same_table(&self, o: &MemoryMovieStore) -> bool {
        self.movies == o.movies
    }

    fn new() -> Self {
        MemoryMovieStore { movies: Arc::new(new_lock(MovieTable::new())) }
    }

    /// Copies of all stored movies, each once, taken under the shared lock.
    pub fn get_all(&self) -> (r: Vec<Movie>)
        ensures
            forall|i: int, j: int| 0 <= i < j < r@.len() ==> r@[i].id != r@[j].id,
            forall|i: int| 0 <= i < r@.len() ==> r@[i].created_at.micros <= r@[i].updated_at.micros,
    {
        let access = lock_shared(&self.movies);
        let table = shared_table(&access);
        table.get_all()
    }

    /// A copy of the movie stored under `id`, if any, taken under the shared lock.
    pub fn get_by_id(&self, id: u128) -> (r: Option<Movie>)
        ensures
            r matches Some(m) ==> m.id == id && m.created_at.micros <= m.updated_at.micros,
    {
        let access = lock_shared(&self.movies);
        let table = shared_table(&access);
        table.get_by_id(id)
    }

    /// Stores a new movie made of `p` under a fresh random id, stamped with the
    /// current time, and returns it. Fails with a backend error when the drawn
    /// id was assigned before.
    pub fn create(&self, p: CreateMovieParams) -> (r: Result<Movie, StoreError>)
        ensures
            r matches Ok(m) ==> m == created(m.id, p, m.created_at) && m.created_at.micros >= 0,
            r matches Err(e) ==> e is Backend,
    {
        let id = fresh_id();
        let stamp = now();
        let mut access = lock_exclusive(&self.movies);
        let table = exclusive_table(&mut access);
        table.create(p, id, stamp)
    }

    /// Applies the partial update `p` to the movie stored under `id`, in one
    /// exclusive section, and returns its new state: the fields present in `p`
    /// replace the stored ones and the others are kept. Fails with `NotFound`
    /// when no movie has that id.
    pub fn update(&self, id: u128, p: UpdateMovieParams) -> (r: Result<Movie, StoreError>)
        ensures
            r matches Ok(m) ==> exists|prev: Movie, t: Timestamp|
                prev.id == id && prev.created_at.micros <= prev.updated_at.micros && m == merged(prev, p, t),
            r matches Err(StoreError::Backend(_)) ==> touches(p),
    {
        let stamp = now();
        let mut access = lock_exclusive(&self.movies);
        let table = exclusive_table(&mut access);
        table.update(id, p, stamp)
    }

    /// Removes the movie stored under `id` and returns its last state. Fails
    /// with `NotFound` when no movie has that id.
    pub fn delete(&self, id: u128) -> (r: Result<Movie, StoreError>)
        ensures
            r matches Ok(m) ==> m.id == id && m.created_at.micros <= m.updated_at.micros,
            r matches Err(e) ==> e is NotFound,
    {
        let mut access = lock_exclusive(&self.movies);
        let table = exclusive_table(&mut access);
        table.delete(id)
    }
}

} // verus!
