//! Simulation core of a real-time engine: a component container that tracks
//! which entities own a component, the per-step integrator state machine, and
//! the frame-timing decisions of a fixed-timestep game loop.

pub mod bitset;
pub mod collider;
pub mod container;
pub mod integrator;
pub mod storage;
pub mod timing;
