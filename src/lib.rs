//! Key paths: typed, zero-sized descriptions of a route through nested data (a field, then a
//! field inside it, then a position in a sequence, ...), projected against a value by shared
//! reference, by mutable reference or by value.

pub mod access;
pub mod family;
pub mod iter;
pub mod keyable;
pub mod laws;
pub mod path;

pub use access::replace_at;
pub use iter::{KeyPathIntoMap, KeyPathMap, MapKeyPath};
pub use path::{Aggregator, KeyPath, KeyPathIndexable, TypeEquals, UsizeKeyPath};
