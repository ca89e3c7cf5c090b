//! The movie record, its creation and update parameters, and the merge rule of
//! a partial update.

use vstd::prelude::*;

verus! {

/// A point in time, in microseconds since the Unix epoch (UTC).
#[derive(Clone, Copy, Debug, PartialEq, Eq, Structural)]
pub struct Timestamp {
    pub micros: i64,
}

/// A monetary amount in minor units (hundredths of the currency unit).
#[derive(Clone, Copy, Debug, PartialEq, Eq, Structural)]
pub struct Price {
    pub cents: i64,
}

/// A stored movie. `id` is assigned by the store; `created_at` never changes
/// after creation and `updated_at` moves forward on every change.
#[derive(Debug)]
pub struct Movie {
    pub id: u128,
    pub title: String,
    pub director: String,
    pub release_date: Timestamp,
    pub ticket_price: Price,
    pub created_at: Timestamp,
    pub updated_at: Timestamp,
}

impl Clone for Movie {
    fn clone(&self) -> (r: Self)
        ensures
            r == *self,
    {
        Movie {
            id: self.id,
            title: self.title.clone(),
            director: self.director.clone(),
            release_date: self.release_date,
            ticket_price: self.ticket_price,
            created_at: self.created_at,
            updated_at: self.updated_at,
        }
    }
}

impl PartialEq for Movie {
    fn eq(&self, o: &Movie) -> (r: bool) {
        self.id == o.id && self.title == o.title && self.director == o.director
            && self.release_date == o.release_date && self.ticket_price == o.ticket_price
            && self.created_at == o.created_at && self.updated_at == o.updated_at
    }
}

impl vstd::std_specs::cmp::PartialEqSpecImpl for Movie {
    open spec fn obeys_eq_spec() -> bool {
        true
    }

    open spec fn eq_spec(&self, o: &Movie) -> bool {
        &&& self.id == o.id
        &&& self.title@ == o.title@
        &&& self.director@ == o.director@
        &&& self.release_date == o.release_date
        &&& self.ticket_price == o.ticket_price
        &&& self.created_at == o.created_at
        &&& self.updated_at == o.updated_at
    }
}

/// What a caller supplies to create a movie; the store adds id and timestamps.
#[derive(Debug)]
pub struct CreateMovieParams {
    pub title: String,
    pub director: String,
    pub release_date: Timestamp,
    pub ticket_price: Price,
}

/// A partial update: an absent field leaves the stored value unchanged.
#[derive(Debug)]
pub struct UpdateMovieParams {
    pub title: Option<String>,
    pub director: Option<String>,
    pub release_date: Option<Timestamp>,
    pub ticket_price: Option<Price>,
}

/// How a store operation fails.
#[derive(Debug)]
pub enum StoreError {
    /// The targeted id is not in the store.
    NotFound,
    /// The storage medium refused the operation; the text says why.
    Backend(String),
}

/// The movie that a creation with this id and clock reading stores.
pub open spec fn created(id: u128, p: CreateMovieParams, now: Timestamp) -> Movie {
    Movie {
        id,
        title: p.title,
        director: p.director,
        release_date: p.release_date,
        ticket_price: p.ticket_price,
        created_at: now,
        updated_at: now,
    }
}

/// Whether the update names at least one field.
pub open spec fn touches(p: UpdateMovieParams) -> bool {
    p.title is Some || p.director is Some || p.release_date is Some || p.ticket_price is Some
}

/// Whether a timestamp strictly after `prev` can be chosen given the clock reading `now`.
pub open spec fn can_refresh(prev: Timestamp, now: Timestamp) -> bool {
    now.micros > prev.micros || prev.micros < i64::MAX
}

/// The refreshed modification time: the clock reading when it is past `prev`,
/// otherwise the instant right after `prev`, so that it always moves forward.
pub open spec fn refreshed(prev: Timestamp, now: Timestamp) -> Timestamp {
    if now.micros > prev.micros {
        now
    } else {
        Timestamp { micros: (prev.micros + 1) as i64 }
    }
}

/// Whether a partial update of `m` can be applied with the clock reading `now`.
pub open spec fn mergeable(m: Movie, p: UpdateMovieParams, now: Timestamp) -> bool {
    touches(p) ==> can_refresh(m.updated_at, now)
}

/// `m` with the fields present in `p` replaced; `updated_at` is refreshed once
/// when any field is present and kept otherwise.
pub open spec fn merged(m: Movie, p: UpdateMovieParams, now: Timestamp) -> Movie {
    Movie {
        id: m.id,
        title: match p.title {
            Some(t) => t,
            None => m.title,
        },
        director: match p.director {
            Some(d) => d,
            None => m.director,
        },
        release_date: match p.release_date {
            Some(d) => d,
            None => m.release_date,
        },
        ticket_price: match p.ticket_price {
            Some(c) => c,
            None => m.ticket_price,
        },
        created_at: m.created_at,
        updated_at: if touches(p) {
            refreshed(m.updated_at, now)
        } else {
            m.updated_at
        },
    }
}

/// The record that creating `p` under `id` at `now` stores.
pub fn new_movie(id: u128, p: CreateMovieParams, now: Timestamp) -> (r: Movie)
    ensures
        r == created(id, p, now),
{
    Movie {
        id,
        title: p.title,
        director: p.director,
        release_date: p.release_date,
        ticket_price: p.ticket_price,
        created_at: now,
        updated_at: now,
    }
}

/// The clock value to record for a change made at `now` to a movie last
/// changed at `prev`, or `None` when no later instant exists.
pub fn refresh_stamp(prev: Timestamp, now: Timestamp) -> (r: Option<Timestamp>)
    ensures
        r == (if can_refresh(prev, now) {
            Some(refreshed(prev, now))
        } else {
            None::<Timestamp>
        }),
{
    if now.micros > prev.micros {
        Some(now)
    } else if prev.micros < i64::MAX {
        Some(Timestamp { micros: prev.micros + 1 })
    } else {
        None
    }
}

/// Applies the partial update `p` to `m` at clock reading `now`. Fails when a
/// field is present but no modification time after `m.updated_at` exists.
pub fn merge_update(m: Movie, p: UpdateMovieParams, now: Timestamp) -> (r: Result<Movie, StoreError>)
    ensures
        r is Ok <==> mergeable(m, p, now),
        r is Ok ==> r->Ok_0 == merged(m, p, now),
        r is Err ==> r->Err_0 is Backend,
{
    let any = p.title.is_some() || p.director.is_some() || p.release_date.is_some()
        || p.ticket_price.is_some();
    let updated_at = if any {
        match refresh_stamp(m.updated_at, now) {
            Some(t) => t,
            None => {
                return Err(StoreError::Backend("no later modification time is available".to_string()));
            },
        }
    } else {
        m.updated_at
    };
    let Movie { id, title, director, release_date, ticket_price, created_at, .. } = m;
    let title = match p.title {
        Some(t) => t,
        None => title,
    };
    let director = match p.director {
        Some(d) => d,
        None => director,
    };
    let release_date = match p.release_date {
        Some(d) => d,
        None => release_date,
    };
    let ticket_price = match p.ticket_price {
        Some(c) => c,
        None => ticket_price,
    };
    Ok(Movie { id, title, director, release_date, ticket_price, created_at, updated_at })
}

} // verus!
