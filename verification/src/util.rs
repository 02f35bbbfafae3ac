//! Miscellaneous utilities: the time-to-live cache and its parts.

pub mod cache;
pub mod clock;
pub mod laws;
pub mod model;
pub mod queue;
pub mod registry;
pub mod result;
pub mod store;
pub mod sync;

pub use self::cache::Cache;
pub use self::cache::CacheKey;
pub use self::cache::CacheVal;
pub use self::registry::CacheMap;
pub use self::result::Error;
pub use self::result::ToError;
pub use self::store::CacheStore;
