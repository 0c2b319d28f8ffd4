//! A read-through cache in front of an authoritative in-memory store of
//! movie records, with every operation specified and proved.

pub mod cache;
pub mod laws;
pub mod movie;
pub mod service;
pub mod store;
pub mod table;

pub use cache::Cache;
pub use movie::{Movie, MovieModel};
pub use service::{CacheAsideService, ServiceError};
pub use store::Store;
pub use table::MovieTable;
