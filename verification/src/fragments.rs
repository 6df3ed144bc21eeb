//! The concrete fragment kinds.
//!
//! Each kind is one record layout of the container: a fixed field order with
//! fixed widths, where any variable-length section is sized by a count field
//! earlier in the same record. Every kind obeys the same contract: parsing
//! consumes exactly the declared fields, and serializing a parsed value
//! reproduces the consumed bytes exactly, including fields whose meaning is
//! unknown.

pub mod camera_reference;
pub mod mesh_animated_vertices;
pub mod mesh_animated_vertices_reference;
pub mod polygon_animation_reference;
pub mod zone_unknown;
