//! A small fixed-timestep animation library: a fixed set of entities, each
//! carrying some of three facets (movable, scalable, drawable), advances its
//! position and size every frame by bouncing between configured bounds, and
//! is rendered as a filled rectangle centered on its position.

pub mod components;
pub mod update;
pub mod world;
pub mod render;
pub mod driver;
pub mod laws;
