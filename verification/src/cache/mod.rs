//! A bounded in-memory cache with an optional, slower second level.

pub mod binding;
pub mod insertion;
pub mod laws;
pub mod measurement;
pub mod memory;
pub mod model;
pub mod secondary;
pub mod state_laws;
pub mod storage;
