//! Aggregation of package metadata: merging curated overrides with registry
//! records, resolving repositories, scoring by activity, and discovering
//! packages through a category index.

pub mod time;
pub mod data;
pub mod github;
pub mod index;
