use vstd::prelude::*;
use crate::cache::Cache;
use crate::movie::{Movie, MovieModel};
use crate::store::Store;

verus! {

/// The abstract state of the service: the store and the cache as maps.
pub struct ServiceModel {
    pub store: Map<Seq<char>, MovieModel>,
    pub cache: Map<Seq<char>, MovieModel>,
}

impl ServiceModel {
    /// Every cached entry is a copy of the stored record under the same key.
    pub open spec fn is_coherent(self) -> bool {
        self.cache.submap_of(self.store)
    }
}

/// What a fetch of `id` returns: the cached entry if there is one, else the
/// stored record, else nothing.
pub open spec fn fetch_result(s: ServiceModel, id: Seq<char>) -> Option<MovieModel> {
    if s.cache.contains_key(id) {
        Some(s.cache[id])
    } else if s.store.contains_key(id) {
        Some(s.store[id])
    } else {
        None
    }
}

/// The state after a fetch of `id`: a miss that the store answers warms the
/// cache; nothing else changes.
pub open spec fn fetch_step(s: ServiceModel, id: Seq<char>) -> ServiceModel {
    if !s.cache.contains_key(id) && s.store.contains_key(id) {
        ServiceModel { store: s.store, cache: s.cache.insert(id, s.store[id]) }
    } else {
        s
    }
}

/// The state after `create_or_replace(m)`: a valid record is written to the
/// store and then to the cache; an invalid one changes nothing.
pub open spec fn upsert_step(s: ServiceModel, m: MovieModel) -> ServiceModel {
    if m.is_valid() {
        ServiceModel { store: s.store.insert(m.id, m), cache: s.cache.insert(m.id, m) }
    } else {
        s
    }
}

/// Why an operation of the service failed.
#[derive(Debug, PartialEq, Eq)]
pub enum ServiceError {
    /// No record is stored under the identifier, which is carried along.
    NotFound(String),
    /// The record handed in for writing has an empty identifier.
    InvalidInput,
}

impl ServiceError {
    /// A human-readable description of the error.
    pub fn message(&self) -> (r: String)
        ensures
            self is NotFound ==> r@ == "Movie with id "@ + self->NotFound_0@ + " not found"@,
            self is InvalidInput ==> r@ == "Movie id must not be empty"@,
    {
        match self {
            ServiceError::NotFound(id) => {
                let mut r = "Movie with id ".to_owned();
                r.append(id.as_str());
                r.append(" not found");
                r
            },
            ServiceError::InvalidInput => "Movie id must not be empty".to_owned(),
        }
    }
}

/// Read-through lookup over a store and a cache held separately: the cache
/// is consulted first; on a miss the store answers and the cache is warmed.
pub fn fetch_from(store: &Store, cache: &mut Cache, id: &str) -> (r: Result<Movie, ServiceError>)
    ensures
        ({
            let s = ServiceModel { store: store@, cache: old(cache)@ };
            &&& final(cache)@ == fetch_step(s, id@).cache
            &&& match r {
                Ok(m) => fetch_result(s, id@) == Some(m@),
                Err(e) => fetch_result(s, id@) is None && e is NotFound && e->NotFound_0@ == id@,
            }
        }),
{
    if let Some(m) = cache.get(id) {
        return Ok(m);
    }
    match store.get(id) {
        Some(m) => {
            cache.put(m.duplicate());
            Ok(m)
        },
        None => Err(ServiceError::NotFound(id.to_owned())),
    }
}

/// Upsert over a store and a cache held separately: the store is written
/// first, then the cache is overwritten with the same record.
pub fn create_or_replace_in(store: &mut Store, cache: &mut Cache, m: Movie) -> (r: Result<
    (),
    ServiceError,
>)
    ensures
        ({
            let s = ServiceModel { store: old(store)@, cache: old(cache)@ };
            &&& r is Ok <==> m@.is_valid()
            &&& r is Err ==> r->Err_0 is InvalidInput
            &&& final(store)@ == upsert_step(s, m@).store
            &&& final(cache)@ == upsert_step(s, m@).cache
        }),
{
    if !m.is_valid() {
        return Err(ServiceError::InvalidInput);
    }
    let copy = m.duplicate();
    store.put(m);
    cache.put(copy);
    Ok(())
}

/// The cache-aside service: owns a store and a cache and keeps every cached
/// entry equal to the stored record under the same key.
pub struct CacheAsideService {
    store: Store,
    cache: Cache,
}

impl View for CacheAsideService {
    type V = ServiceModel;

    closed spec fn view(&self) -> ServiceModel {
        ServiceModel { store: self.store@, cache: self.cache@ }
    }
}

impl CacheAsideService {
    #[verifier::type_invariant]
    closed spec fn coherent(self) -> bool {
        self@.is_coherent()
    }

    /// A service over `seed` with an empty cache.
    pub fn new(seed: Store) -> (r: CacheAsideService)
        ensures
            r@.store == seed@,
            r@.cache == Map::<Seq<char>, MovieModel>::empty(),
            r@.is_coherent(),
    {
        CacheAsideService { store: seed, cache: Cache::new() }
    }

    /// Returns the record stored under `id`, through the cache.
    pub fn fetch(&mut self, id: &str) -> (r: Result<Movie, ServiceError>)
        ensures
            final(self)@ == fetch_step(old(self)@, id@),
            old(self)@.is_coherent() && final(self)@.is_coherent(),
            r is Ok <==> old(self)@.store.contains_key(id@),
            r is Ok ==> r->Ok_0@ == old(self)@.store[id@],
            r is Err ==> r->Err_0 is NotFound && r->Err_0->NotFound_0@ == id@,
    {
        proof {
            use_type_invariant(&*self);
        }
        let mut cache = Cache::new();
        std::mem::swap(&mut cache, &mut self.cache);
        let r = fetch_from(&self.store, &mut cache, id);
        self.cache = cache;
        r
    }

    /// Writes `m` to the store, then to the cache.
    pub fn create_or_replace(&mut self, m: Movie) -> (r: Result<(), ServiceError>)
        ensures
            final(self)@ == upsert_step(old(self)@, m@),
            old(self)@.is_coherent() && final(self)@.is_coherent(),
            r is Ok <==> m@.is_valid(),
            r is Err ==> r->Err_0 is InvalidInput,
    {
        proof {
            use_type_invariant(&*self);
        }
        let mut cache = Cache::new();
        std::mem::swap(&mut cache, &mut self.cache);
        let mut store = Store::new();
        std::mem::swap(&mut store, &mut self.store);
        let r = create_or_replace_in(&mut store, &mut cache, m);
        self.store = store;
        self.cache = cache;
        r
    }

    /// Empties the cache; the store is untouched.
    pub fn clear_cache(&mut self)
        ensures
            final(self)@.store == old(self)@.store,
            final(self)@.cache == Map::<Seq<char>, MovieModel>::empty(),
            final(self)@.is_coherent(),
    {
        let mut cache = Cache::new();
        std::mem::swap(&mut cache, &mut self.cache);
    }

    /// The store, for inspection.
    pub fn store(&self) -> (r: &Store)
        ensures
            r@ == self@.store,
            self@.is_coherent(),
    {
        proof {
            use_type_invariant(self);
        }
        &self.store
    }

    /// The cache, for inspection.
    pub fn cache(&self) -> (r: &Cache)
        ensures
            r@ == self@.cache,
    {
        &self.cache
    }
}

} // verus!
