//! Verified core of a small first-person world viewer: input bindings, the
//! decisions taken on window and surface events, texture pixel preparation,
//! and the index arithmetic of meshes.

pub mod control;
pub mod engine;
pub mod world;
