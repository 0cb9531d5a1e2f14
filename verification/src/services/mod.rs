//! Services that requests pass through.

pub mod poll;
pub mod supergraph_request;
pub mod translate;
