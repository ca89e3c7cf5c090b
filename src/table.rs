//! The movies of one store as a keyed table, with the rules of each CRUD
//! operation. Identifiers, once handed out, are never handed out again.

use std::collections::HashMap;
use std::collections::HashSet;
use vstd::prelude::*;
use vstd::std_specs::iter::IteratorSpec;

use crate::movie::{
    created, merge_update, merged, mergeable, new_movie, CreateMovieParams, Movie, StoreError,
    Timestamp, UpdateMovieParams,
};

verus! {

broadcast use vstd::std_specs::hash::group_hash_axioms;

/// The abstract content of a table: the stored movies by id, and every id
/// that was ever assigned.
pub ghost struct TableState {
    pub movies: Map<u128, Movie>,
    pub issued: Set<u128>,
}

/// A well-formed table: each movie is stored under its own id, was created no
/// later than it was last changed, and its id is among the assigned ones.
pub open spec fn table_wf(t: TableState) -> bool {
    forall|k: u128| #[trigger]
        t.movies.contains_key(k) ==> {
            &&& t.movies[k].id == k
            &&& t.movies[k].created_at.micros <= t.movies[k].updated_at.micros
            &&& t.issued.contains(k)
        }
}

/// What looking up `id` yields.
pub open spec fn lookup(t: TableState, id: u128) -> Option<Movie> {
    if t.movies.contains_key(id) {
        Some(t.movies[id])
    } else {
        None
    }
}

/// Whether `s` lists exactly the stored movies, each once, in some order.
pub open spec fn lists_all(t: TableState, s: Seq<Movie>) -> bool {
    &&& s.len() == t.movies.len()
    &&& forall|i: int| #![trigger s[i]] 0 <= i < s.len() ==> t.movies.contains_key(s[i].id) && t.movies[s[i].id] == s[i]
    &&& forall|i: int, j: int| #![trigger s[i], s[j]] 0 <= i < j < s.len() ==> s[i].id != s[j].id
    &&& forall|k: u128| #[trigger] t.movies.contains_key(k) ==> exists|i: int| 0 <= i < s.len() && s[i].id == k
}

/// A creation under `id` succeeds exactly when `id` was never assigned.
pub open spec fn create_succeeds(t: TableState, id: u128) -> bool {
    !t.issued.contains(id)
}

/// The table after a successful creation of `p` under `id` at `now`.
pub open spec fn after_create(t: TableState, p: CreateMovieParams, id: u128, now: Timestamp) -> TableState {
    TableState { movies: t.movies.insert(id, created(id, p, now)), issued: t.issued.insert(id) }
}

/// An update of `id` succeeds exactly when `id` is stored and the merge can be applied.
pub open spec fn update_succeeds(t: TableState, id: u128, p: UpdateMovieParams, now: Timestamp) -> bool {
    t.movies.contains_key(id) && mergeable(t.movies[id], p, now)
}

/// The table after a successful update of `id`.
pub open spec fn after_update(t: TableState, id: u128, p: UpdateMovieParams, now: Timestamp) -> TableState {
    TableState { movies: t.movies.insert(id, merged(t.movies[id], p, now)), issued: t.issued }
}

/// The table after a successful deletion of `id`.
pub open spec fn after_delete(t: TableState, id: u128) -> TableState {
    TableState { movies: t.movies.remove(id), issued: t.issued }
}

/// The movies of one store, keyed by id, and the ids assigned so far.
pub struct MovieTable {
    movies: HashMap<u128, Movie>,
    issued: HashSet<u128>,
}

impl View for MovieTable {
    type V = TableState;

    closed spec fn view(&self) -> TableState {
        TableState { movies: self.movies@, issued: self.issued@ }
    }
}

impl MovieTable {
    #[verifier::type_invariant]
    spec fn inv(self) -> bool {
        table_wf(self@)
    }

    /// An empty table with no id assigned.
    pub fn new() -> (r: Self)
        ensures
            r@.movies == Map::<u128, Movie>::empty(),
            r@.issued == Set::<u128>::empty(),
            table_wf(r@),
    {
        MovieTable { movies: HashMap::new(), issued: HashSet::new() }
    }

    /// The stored movie with this id, if any, as a copy.
    pub fn get_by_id(&self, id: u128) -> (r: Option<Movie>)
        ensures
            r == lookup(self@, id),
            table_wf(self@),
    {
        proof { use_type_invariant(self); }
        match self.movies.get(&id) {
            Some(m) => Some(m.clone()),
            None => None,
        }
    }

    /// Copies of all stored movies, each once, in no particular order.
    pub fn get_all(&self) -> (r: Vec<Movie>)
        ensures
            lists_all(self@, r@),
            table_wf(self@),
    {
        proof { use_type_invariant(self); }
        let mut result: Vec<Movie> = Vec::new();
        let iter = self.movies.iter();
        let ghost pairs = iter.remaining();
        assert(pairs.no_duplicates());
        assert forall|i: int, j: int| 0 <= i < j < pairs.len() implies *pairs[i].0 != *pairs[j].0 by {
            if *pairs[i].0 == *pairs[j].0 {
                assert(self@.movies[*pairs[i].0] == *pairs[i].1);
                assert(self@.movies[*pairs[j].0] == *pairs[j].1);
                assert(pairs[i].0 == pairs[j].0);
                assert(pairs[i].1 == pairs[j].1);
                assert(pairs[i] == pairs[j]);
            }
        }
        for (k, m) in it: iter
            invariant
                it.seq() == pairs,
                pairs.len() == self@.movies.len(),
                forall|i: int| #![trigger pairs[i]] 0 <= i < pairs.len() ==> self@.movies.contains_key(*pairs[i].0)
                    && self@.movies[*pairs[i].0] == *pairs[i].1,
                forall|i: int, j: int| 0 <= i < j < pairs.len() ==> *pairs[i].0 != *pairs[j].0,
                table_wf(self@),
                result@.len() == it.index(),
                forall|i: int| 0 <= i < it.index() ==> #[trigger] result@[i] == *pairs[i].1,
        {
            result.push(m.clone());
        }
        proof {
            assert forall|k: u128| #[trigger] self@.movies.contains_key(k) implies exists|i: int|
                0 <= i < result@.len() && result@[i].id == k by {
                assert(pairs.contains((&k, &self@.movies[k])));
                let i = choose|i: int| 0 <= i < pairs.len() && pairs[i] == (&k, &self@.movies[k]);
                assert(result@[i].id == k);
            }
        }
        result
    }

    /// Moves the contents out, leaving the table empty.
    fn take_parts(&mut self) -> (r: (HashMap<u128, Movie>, HashSet<u128>))
        ensures
            r.0@ == old(self)@.movies,
            r.1@ == old(self)@.issued,
            table_wf(old(self)@),
    {
        proof { use_type_invariant(&*self); }
        let mut t = MovieTable::new();
        std::mem::swap(self, &mut t);
        let MovieTable { movies, issued } = t;
        (movies, issued)
    }

    /// Stores a new movie made of `p` under `id`, stamped `now`, and returns
    /// it. Fails, changing nothing, when `id` was assigned before.
    pub fn create(&mut self, p: CreateMovieParams, id: u128, now: Timestamp) -> (r: Result<Movie, StoreError>)
        ensures
            table_wf(old(self)@),
            table_wf(final(self)@),
            r is Ok <==> create_succeeds(old(self)@, id),
            r is Ok ==> r->Ok_0 == created(id, p, now) && final(self)@ == after_create(old(self)@, p, id, now),
            r is Err ==> r->Err_0 is Backend && final(self)@ == old(self)@,
    {
        proof { use_type_invariant(&*self); }
        if self.issued.contains(&id) {
            return Err(StoreError::Backend("identifier already assigned".to_string()));
        }
        let movie = new_movie(id, p, now);
        let (mut movies, mut issued) = self.take_parts();
        issued.insert(id);
        movies.insert(id, movie.clone());
        *self = MovieTable { movies, issued };
        Ok(movie)
    }

    /// Applies the partial update `p` to the movie stored under `id`, at clock
    /// reading `now`, and returns the new state. Fails with `NotFound` when no
    /// movie has that id, and with a backend error, changing nothing, when the
    /// modification time cannot move forward.
    pub fn update(&mut self, id: u128, p: UpdateMovieParams, now: Timestamp) -> (r: Result<Movie, StoreError>)
        ensures
            table_wf(old(self)@),
            table_wf(final(self)@),
            r is Ok <==> update_succeeds(old(self)@, id, p, now),
            r is Ok ==> r->Ok_0 == merged(old(self)@.movies[id], p, now)
                && final(self)@ == after_update(old(self)@, id, p, now),
            r is Err ==> final(self)@ == old(self)@,
            r is Err ==> (r->Err_0 is NotFound <==> !old(self)@.movies.contains_key(id)),
    {
        proof { use_type_invariant(&*self); }
        let current = match self.movies.get(&id) {
            Some(m) => m.clone(),
            None => {
                return Err(StoreError::NotFound);
            },
        };
        let movie = match merge_update(current, p, now) {
            Ok(m) => m,
            Err(e) => {
                return Err(e);
            },
        };
        let (mut movies, issued) = self.take_parts();
        movies.insert(id, movie.clone());
        *self = MovieTable { movies, issued };
        Ok(movie)
    }

    /// Removes the movie stored under `id` and returns it. Fails with
    /// `NotFound`, changing nothing, when no movie has that id.
    pub fn delete(&mut self, id: u128) -> (r: Result<Movie, StoreError>)
        ensures
            table_wf(old(self)@),
            table_wf(final(self)@),
            r is Ok <==> old(self)@.movies.contains_key(id),
            r is Ok ==> r->Ok_0 == old(self)@.movies[id] && final(self)@ == after_delete(old(self)@, id),
            r is Err ==> r->Err_0 is NotFound && final(self)@ == old(self)@,
    {
        proof { use_type_invariant(&*self); }
        if !self.movies.contains_key(&id) {
            return Err(StoreError::NotFound);
        }
        let (mut movies, issued) = self.take_parts();
        let removed = movies.remove(&id);
        *self = MovieTable { movies, issued };
        match removed {
            Some(m) => Ok(m),
            None => Err(StoreError::NotFound),
        }
    }
}

} // verus!
