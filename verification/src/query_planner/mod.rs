//! A pool of query planners that share one schema.

pub mod assembly;
pub mod pool;
