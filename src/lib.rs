//! A small entity-component engine core: entities that own typed components,
//! a world that answers typed queries, and the per-frame planner that groups
//! visible mesh instances into instanced draw batches and caches that grouping.

pub mod component;
pub mod entity;
pub mod material_set;
pub mod batching;
pub mod world;
pub mod transform;
pub mod camera;
pub mod engine;
pub mod context;
pub mod laws;
