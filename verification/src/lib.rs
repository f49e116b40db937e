//! Selection engine for bulk relocation of objects in a cloud object store.
//!
//! The library parses a store location (`s3://container/keypath`), drives a
//! paginated listing one page at a time, derives each object's key relative
//! to the listed prefix, applies an optional regex filter / rename rule, and
//! formats the surviving (key, size) pairs as tab-separated records.

pub mod errors;
pub mod location;
pub mod pattern;
pub mod transform;
pub mod paginate;
pub mod record;
