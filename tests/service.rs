use movie_cache::service::{create_or_replace_in, fetch_from};
use movie_cache::{Cache, CacheAsideService, Movie, MovieTable, ServiceError, Store};

fn movie(id: &str, name: &str, year: u16, was_good: bool) -> Movie {
    Movie::new(id.to_string(), name.to_string(), year, was_good)
}

fn seeded() -> CacheAsideService {
    let mut store = Store::new();
    store.put(movie("1", "Movie", 2000, true));
    CacheAsideService::new(store)
}

#[test]
fn warm_then_hit() {
    let mut svc = seeded();
    assert!(svc.cache().get("1").is_none());
    let got = svc.fetch("1").unwrap();
    assert_eq!(got, movie("1", "Movie", 2000, true));
    assert_eq!(svc.cache().get("1"), Some(movie("1", "Movie", 2000, true)));
    assert_eq!(svc.fetch("1").unwrap(), movie("1", "Movie", 2000, true));
}

#[test]
fn missing_id_is_not_found() {
    let mut svc = seeded();
    let err = svc.fetch("nonexistent").unwrap_err();
    assert_eq!(err, ServiceError::NotFound("nonexistent".to_string()));
    assert_eq!(err.message(), "Movie with id nonexistent not found");
    assert!(svc.cache().get("nonexistent").is_none());
}

#[test]
fn read_after_write() {
    let mut svc = CacheAsideService::new(Store::new());
    assert_eq!(svc.create_or_replace(movie("7", "Heat", 1995, true)), Ok(()));
    assert_eq!(svc.fetch("7").unwrap(), movie("7", "Heat", 1995, true));
}

#[test]
fn write_replaces_a_cached_value() {
    let mut svc = seeded();
    svc.fetch("1").unwrap();
    svc.create_or_replace(movie("1", "Remake", 2020, false)).unwrap();
    assert_eq!(svc.fetch("1").unwrap(), movie("1", "Remake", 2020, false));
    assert_eq!(svc.store().get("1"), Some(movie("1", "Remake", 2020, false)));
}

#[test]
fn second_write_wins() {
    let mut svc = CacheAsideService::new(Store::new());
    svc.create_or_replace(movie("a", "First", 1990, true)).unwrap();
    svc.create_or_replace(movie("a", "Second", 2010, false)).unwrap();
    assert_eq!(svc.fetch("a").unwrap(), movie("a", "Second", 2010, false));
    svc.clear_cache();
    assert_eq!(svc.fetch("a").unwrap(), movie("a", "Second", 2010, false));
}

#[test]
fn clearing_the_cache_changes_no_result() {
    let mut a = seeded();
    let mut b = seeded();
    a.create_or_replace(movie("2", "Two", 2002, false)).unwrap();
    b.create_or_replace(movie("2", "Two", 2002, false)).unwrap();
    a.fetch("1").unwrap();
    b.fetch("1").unwrap();
    b.clear_cache();
    assert!(b.cache().get("1").is_none());
    for id in ["1", "2", "3"] {
        assert_eq!(a.fetch(id), b.fetch(id));
    }
    assert_eq!(b.fetch("2").unwrap(), movie("2", "Two", 2002, false));
}

#[test]
fn empty_id_is_rejected() {
    let mut svc = seeded();
    let err = svc.create_or_replace(movie("", "Nameless", 1999, true)).unwrap_err();
    assert_eq!(err, ServiceError::InvalidInput);
    assert_eq!(err.message(), "Movie id must not be empty");
    assert!(svc.store().get("").is_none());
    assert!(svc.cache().get("").is_none());
}

#[test]
fn distinct_writers_read_back() {
    let ids = ["10", "11", "12", "13", "14", "15"];
    let mut svc = CacheAsideService::new(Store::new());
    for (n, id) in ids.iter().enumerate().rev() {
        svc.create_or_replace(movie(id, &format!("Film {}", id), 1980 + n as u16, n % 2 == 0))
            .unwrap();
    }
    for (n, id) in ids.iter().enumerate() {
        let got = svc.fetch(id).unwrap();
        assert_eq!(got, movie(id, &format!("Film {}", id), 1980 + n as u16, n % 2 == 0));
    }
}

#[test]
fn free_functions_share_the_protocol() {
    let mut store = Store::new();
    let mut cache = Cache::new();
    assert_eq!(
        fetch_from(&store, &mut cache, "x"),
        Err(ServiceError::NotFound("x".to_string()))
    );
    create_or_replace_in(&mut store, &mut cache, movie("x", "Ex", 2001, true)).unwrap();
    assert_eq!(cache.get("x"), Some(movie("x", "Ex", 2001, true)));
    cache.invalidate("x");
    assert!(cache.get("x").is_none());
    assert_eq!(fetch_from(&store, &mut cache, "x").unwrap(), movie("x", "Ex", 2001, true));
    assert_eq!(cache.get("x"), Some(movie("x", "Ex", 2001, true)));
    assert_eq!(
        create_or_replace_in(&mut store, &mut cache, movie("", "", 0, false)),
        Err(ServiceError::InvalidInput)
    );
}

#[test]
fn table_put_get_remove_clear() {
    let mut t = MovieTable::new();
    let k1 = "k1".to_string();
    let k2 = "k2".to_string();
    t.put(movie("k1", "One", 1, true));
    t.put(movie("k2", "Two", 2, false));
    t.put(movie("k1", "Uno", 11, false));
    assert_eq!(t.get(&k1), Some(movie("k1", "Uno", 11, false)));
    assert_eq!(t.get(&k2), Some(movie("k2", "Two", 2, false)));
    t.remove(&k1);
    assert!(t.get(&k1).is_none());
    assert_eq!(t.get(&k2), Some(movie("k2", "Two", 2, false)));
    t.remove(&k1);
    t.clear();
    assert!(t.get(&k2).is_none());
}

#[test]
fn cache_clear_and_duplicate() {
    let mut cache = Cache::new();
    let m = movie("d", "Dup", 1977, true);
    let copy = m.duplicate();
    assert_eq!(copy, m);
    assert!(m.is_valid());
    assert!(!movie("", "x", 1, true).is_valid());
    cache.put(m);
    cache.clear();
    assert!(cache.get("d").is_none());
}
