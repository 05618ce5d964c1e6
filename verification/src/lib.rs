//! A small 2-D software renderer and the bookkeeping half of a particle
//! physics engine: a frame buffer with shape drawing, and a registry of
//! (particle, force generator) pairings that decides which forces a host
//! applies each simulation step.

pub mod component;
pub mod particle;
pub mod renderer;
