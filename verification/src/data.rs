//! The small data types of the database layer.

pub mod database;
pub mod error;
pub mod id;
pub mod open;

pub use self::error::Error;
pub use self::error::IOError;
pub use self::id::ID;
pub use self::open::OpenFlags;
