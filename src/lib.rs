//! Persistence coordination for hierarchical course content (course, module, lesson):
//! graph statements with bound parameters, decoding of graph nodes into entities,
//! a TTL cache with prefix-pattern invalidation, and invalidation events.
pub mod error;
pub mod node;
pub mod entity;
pub mod query;
pub mod detail;
pub mod cache;
pub mod events;
pub mod dtos;
pub mod coordinator;
pub mod search;
pub mod metadata;
