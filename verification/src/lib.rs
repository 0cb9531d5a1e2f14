//! The decision logic of a GraphQL router's plumbing: a two level cache, the
//! assembly of a pool of query planners, and the chain of layers that a
//! supergraph request goes through.
//!
//! Everything here is synchronous. Locks, sockets and task scheduling belong to
//! the code around the library, which performs the work that a function here
//! asks for and hands back what came of it.

pub mod cache;
pub mod query_planner;
pub mod services;
