//! Kamipad's shared building blocks: an in-process cache whose entries
//! expire after a time-to-live, a registry that hands out one cache for
//! each pair of key and value types, the small data types of the database
//! layer (identifiers, opening flags, errors), and the page of the GraphiQL
//! console.

pub mod data;
pub mod graph;
pub mod util;
