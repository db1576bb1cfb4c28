//! Typed `git:` URIs that address objects of a content-addressed object
//! store, and the resolution of path-qualified references to object hashes.

pub mod text;
pub mod error;
pub mod uri;
pub mod listing;
pub mod resolve;
pub mod laws;
