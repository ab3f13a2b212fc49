//! A quad-store adapter: projects loosely typed RDF terms into canonical quads,
//! applies insertions and removals to a transactional store, and keeps an index
//! of the named graphs that were registered and of their categories.

pub mod term;
pub mod project;
pub mod model;
pub mod dataset;
pub mod graph;
pub mod meta;
pub mod storage;
pub mod laws;
pub mod service;
pub mod memory;
