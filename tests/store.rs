use movie_api::app_error::AppError;
use movie_api::configuration::{DatabaseConfiguration, StoreKind};
use movie_api::memory_store::MemoryStore;
use movie_api::movie::{
    merge_update, refresh_stamp, CreateMovieParams, Movie, Price, StoreError, Timestamp,
    UpdateMovieParams,
};
use movie_api::sql_store::{insert_row, liveness, plan_update, returned_row, update_row};
use movie_api::table::MovieTable;

// 2010-07-16T00:00:00Z in microseconds since the epoch.
const INCEPTION_RELEASE: i64 = 1_279_238_400_000_000;

fn inception() -> CreateMovieParams {
    CreateMovieParams {
        title: "Inception".to_string(),
        director: "Nolan".to_string(),
        release_date: Timestamp { micros: INCEPTION_RELEASE },
        ticket_price: Price { cents: 1050 },
    }
}

fn params(title: &str) -> CreateMovieParams {
    CreateMovieParams {
        title: title.to_string(),
        director: "Someone".to_string(),
        release_date: Timestamp { micros: 0 },
        ticket_price: Price { cents: 800 },
    }
}

fn no_change() -> UpdateMovieParams {
    UpdateMovieParams { title: None, director: None, release_date: None, ticket_price: None }
}

fn sample_movie(updated_at: i64) -> Movie {
    Movie {
        id: 7,
        title: "Heat".to_string(),
        director: "Mann".to_string(),
        release_date: Timestamp { micros: 100 },
        ticket_price: Price { cents: 900 },
        created_at: Timestamp { micros: 50 },
        updated_at: Timestamp { micros: updated_at },
    }
}

fn now_micros() -> i64 {
    let d = std::time::SystemTime::now().duration_since(std::time::UNIX_EPOCH).unwrap();
    d.as_micros() as i64
}

#[test]
fn inception_scenario() {
    let store = MemoryStore::new();
    let movies = store.movie_store();
    let created = movies.create(inception()).unwrap();
    assert_eq!(created.title, "Inception");
    assert_eq!(created.director, "Nolan");
    assert_eq!(created.release_date, Timestamp { micros: INCEPTION_RELEASE });
    assert_eq!(created.ticket_price, Price { cents: 1050 });
    assert_eq!(created.created_at, created.updated_at);

    let change = UpdateMovieParams { ticket_price: Some(Price { cents: 1200 }), ..no_change() };
    let updated = movies.update(created.id, change).unwrap();
    assert_eq!(updated.id, created.id);
    assert_eq!(updated.title, "Inception");
    assert_eq!(updated.director, "Nolan");
    assert_eq!(updated.release_date, created.release_date);
    assert_eq!(updated.ticket_price, Price { cents: 1200 });
    assert_eq!(updated.created_at, created.created_at);
    assert!(updated.updated_at.micros > created.updated_at.micros);

    let deleted = movies.delete(created.id).unwrap();
    assert_eq!(deleted, updated);
    assert!(movies.get_by_id(created.id).is_none());
}

#[test]
fn created_ids_are_distinct() {
    let movies = MemoryStore::new().movie_store();
    let mut ids: Vec<u128> = Vec::new();
    for i in 0..50 {
        let m = movies.create(params(&format!("movie {}", i))).unwrap();
        assert!(!ids.contains(&m.id));
        ids.push(m.id);
    }
    assert_eq!(movies.get_all().len(), 50);
}

#[test]
fn created_ids_are_version_four_uuids() {
    let movies = MemoryStore::new().movie_store();
    let m = movies.create(params("A")).unwrap();
    assert_eq!((m.id >> 76) & 0xf, 4);
    assert_eq!((m.id >> 62) & 0x3, 2);
}

#[test]
fn creation_is_stamped_with_the_current_time() {
    let before = now_micros();
    let m = MemoryStore::new().movie_store().create(params("A")).unwrap();
    let after = now_micros();
    assert!(before <= m.created_at.micros && m.created_at.micros <= after);
}

#[test]
fn create_then_get_round_trip() {
    let movies = MemoryStore::new().movie_store();
    let m = movies.create(params("Alien")).unwrap();
    assert_eq!(movies.get_by_id(m.id), Some(m.clone()));
    assert_eq!(m.title, "Alien");
    assert_eq!(m.director, "Someone");
    assert_eq!(m.ticket_price, Price { cents: 800 });
}

#[test]
fn handles_share_one_table() {
    let store = MemoryStore::new();
    let a = store.movie_store();
    let b = store.movie_store();
    let m = a.create(params("Shared")).unwrap();
    assert_eq!(b.get_by_id(m.id), Some(m));
    assert!(store.is_connected());
}

#[test]
fn get_all_lists_each_movie_once() {
    let movies = MemoryStore::new().movie_store();
    assert!(movies.get_all().is_empty());
    let a = movies.create(params("A")).unwrap();
    let b = movies.create(params("B")).unwrap();
    let all = movies.get_all();
    assert_eq!(all.len(), 2);
    assert!(all.contains(&a));
    assert!(all.contains(&b));
}

#[test]
fn title_update_keeps_other_fields() {
    let mut table = MovieTable::new();
    let m = table.create(params("Old"), 11, Timestamp { micros: 1000 }).unwrap();
    let change = UpdateMovieParams { title: Some("New".to_string()), ..no_change() };
    let u = table.update(11, change, Timestamp { micros: 2000 }).unwrap();
    assert_eq!(u, Movie { title: "New".to_string(), updated_at: Timestamp { micros: 2000 }, ..m });
    assert_eq!(table.get_by_id(11), Some(u));
}

#[test]
fn update_moves_time_forward_when_clock_lags() {
    let mut table = MovieTable::new();
    table.create(params("Old"), 11, Timestamp { micros: 1000 }).unwrap();
    let change = UpdateMovieParams { director: Some("Other".to_string()), ..no_change() };
    let u = table.update(11, change, Timestamp { micros: 400 }).unwrap();
    assert_eq!(u.updated_at, Timestamp { micros: 1001 });
    assert_eq!(u.created_at, Timestamp { micros: 1000 });
}

#[test]
fn empty_update_returns_movie_unchanged() {
    let mut table = MovieTable::new();
    let m = table.create(params("Same"), 3, Timestamp { micros: 10 }).unwrap();
    let u = table.update(3, no_change(), Timestamp { micros: 99 }).unwrap();
    assert_eq!(u, m);
    assert_eq!(table.get_by_id(3), Some(m));
}

#[test]
fn update_of_missing_id_is_not_found() {
    let mut table = MovieTable::new();
    let r = table.update(5, no_change(), Timestamp { micros: 1 });
    assert!(matches!(r, Err(StoreError::NotFound)));
    let movies = MemoryStore::new().movie_store();
    assert!(matches!(movies.update(5, no_change()), Err(StoreError::NotFound)));
}

#[test]
fn delete_is_terminal() {
    let mut table = MovieTable::new();
    let m = table.create(params("Gone"), 21, Timestamp { micros: 5 }).unwrap();
    assert_eq!(table.delete(21).unwrap(), m);
    assert!(table.get_by_id(21).is_none());
    assert!(matches!(table.delete(21), Err(StoreError::NotFound)));
}

#[test]
fn deleted_id_is_never_reassigned() {
    let mut table = MovieTable::new();
    table.create(params("First"), 21, Timestamp { micros: 5 }).unwrap();
    table.delete(21).unwrap();
    let again = table.create(params("Second"), 21, Timestamp { micros: 6 });
    assert!(matches!(again, Err(StoreError::Backend(_))));
    assert!(table.get_by_id(21).is_none());
}

#[test]
fn assigned_id_is_refused() {
    let mut table = MovieTable::new();
    table.create(params("First"), 9, Timestamp { micros: 5 }).unwrap();
    let again = table.create(params("Second"), 9, Timestamp { micros: 6 });
    assert!(matches!(again, Err(StoreError::Backend(_))));
    assert_eq!(table.get_by_id(9).unwrap().title, "First");
}

#[test]
fn memory_delete_of_missing_id_is_not_found() {
    let movies = MemoryStore::new().movie_store();
    assert!(matches!(movies.delete(1), Err(StoreError::NotFound)));
}

#[test]
fn refresh_stamp_cases() {
    assert_eq!(refresh_stamp(Timestamp { micros: 10 }, Timestamp { micros: 20 }), Some(Timestamp { micros: 20 }));
    assert_eq!(refresh_stamp(Timestamp { micros: 10 }, Timestamp { micros: 10 }), Some(Timestamp { micros: 11 }));
    assert_eq!(refresh_stamp(Timestamp { micros: i64::MAX }, Timestamp { micros: 0 }), None);
}

#[test]
fn merge_fails_when_time_cannot_advance() {
    let change = UpdateMovieParams { title: Some("X".to_string()), ..no_change() };
    let r = merge_update(sample_movie(i64::MAX), change, Timestamp { micros: 0 });
    assert!(matches!(r, Err(StoreError::Backend(_))));
    let r = merge_update(sample_movie(i64::MAX), no_change(), Timestamp { micros: 0 });
    assert_eq!(r.unwrap(), sample_movie(i64::MAX));
}

#[test]
fn merge_applies_every_present_field_once() {
    let change = UpdateMovieParams {
        title: Some("T".to_string()),
        director: Some("D".to_string()),
        release_date: Some(Timestamp { micros: 7 }),
        ticket_price: Some(Price { cents: 1 }),
    };
    let r = merge_update(sample_movie(60), change, Timestamp { micros: 70 }).unwrap();
    assert_eq!(r, Movie {
        id: 7,
        title: "T".to_string(),
        director: "D".to_string(),
        release_date: Timestamp { micros: 7 },
        ticket_price: Price { cents: 1 },
        created_at: Timestamp { micros: 50 },
        updated_at: Timestamp { micros: 70 },
    });
}

#[test]
fn relational_update_plan() {
    assert!(matches!(plan_update(None, no_change(), Timestamp { micros: 1 }), Err(StoreError::NotFound)));
    let change = UpdateMovieParams { ticket_price: Some(Price { cents: 1200 }), ..no_change() };
    let r = plan_update(Some(sample_movie(60)), change, Timestamp { micros: 90 }).unwrap();
    assert_eq!(r, Movie { ticket_price: Price { cents: 1200 }, updated_at: Timestamp { micros: 90 }, ..sample_movie(60) });
}

#[test]
fn relational_insert_row() {
    let r = insert_row(inception());
    assert_eq!(r.title, "Inception");
    assert_eq!(r.ticket_price, Price { cents: 1050 });
    assert_eq!(r.created_at, r.updated_at);
    assert!(r.created_at.micros > 0);
    assert_ne!(insert_row(params("A")).id, insert_row(params("A")).id);
}

#[test]
fn relational_delete_and_liveness() {
    assert_eq!(returned_row(Some(sample_movie(60))).unwrap(), sample_movie(60));
    assert!(matches!(returned_row(None), Err(StoreError::NotFound)));
    assert!(liveness(Some(Some(true))));
    assert!(!liveness(Some(Some(false))));
    assert!(!liveness(Some(None)));
    assert!(!liveness(None));
}

#[test]
fn store_kind_selection() {
    let mut db = DatabaseConfiguration {
        database_url: "postgres://localhost/movies".to_string(),
        log_level: "info".to_string(),
        max_open_connections: 5,
        store_type: "sql".to_string(),
    };
    assert_eq!(db.store_kind(), StoreKind::Sql);
    db.store_type = "memory".to_string();
    assert_eq!(db.store_kind(), StoreKind::Memory);
    db.store_type = "SQL".to_string();
    assert_eq!(db.store_kind(), StoreKind::Memory);
}

#[test]
fn app_errors() {
    let e = AppError::from_store(StoreError::NotFound);
    assert!(matches!(e, AppError::MovieNotFound));
    assert_eq!(e.status_code(), 404);
    assert_eq!(e.error_message(), "Movie not found");
    let e = AppError::from_store(StoreError::Backend("down".to_string()));
    assert!(matches!(&e, AppError::Unknown(m) if m == "down"));
    assert_eq!(e.status_code(), 500);
    assert_eq!(e.error_message(), "unknown error");
    let e = AppError::ValidationError("bad date".to_string());
    assert_eq!(e.status_code(), 400);
    assert_eq!(e.error_message(), "validation error");
}

#[test]
fn concurrent_reads_complete() {
    let movies = MemoryStore::new().movie_store();
    for i in 0..10 {
        movies.create(params(&format!("movie {}", i))).unwrap();
    }
    let runtime = tokio::runtime::Builder::new_multi_thread().worker_threads(4).build().unwrap();
    let handles: Vec<_> = (0..16)
        .map(|_| {
            let reader = movies.clone();
            runtime.spawn_blocking(move || reader.get_all().len())
        })
        .collect();
    for handle in handles {
        assert_eq!(runtime.block_on(handle).unwrap(), 10);
    }
}

#[test]
fn relational_update_row_on_stored_row() {
    let change = UpdateMovieParams { title: Some("Ronin".to_string()), ..no_change() };
    let r = update_row(Some(sample_movie(60)), change).unwrap();
    assert_eq!(r.title, "Ronin");
    assert_eq!(r.director, "Mann");
    assert_eq!(r.created_at, Timestamp { micros: 50 });
    assert!(r.updated_at.micros > 60);
    assert_eq!(update_row(Some(sample_movie(60)), no_change()).unwrap(), sample_movie(60));
    assert!(matches!(update_row(None, no_change()), Err(StoreError::NotFound)));
    let change = UpdateMovieParams { title: Some("Ronin".to_string()), ..no_change() };
    assert!(matches!(update_row(Some(sample_movie(i64::MAX)), change), Err(StoreError::Backend(_))));
}

#[test]
fn cloned_handle_shares_table() {
    let movies = MemoryStore::new().movie_store();
    let copy = movies.clone();
    let m = movies.create(params("Clone")).unwrap();
    assert_eq!(copy.get_by_id(m.id), Some(m.clone()));
    copy.delete(m.id).unwrap();
    assert!(movies.get_by_id(m.id).is_none());
}
