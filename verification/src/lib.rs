//! Verified core of a free-flying first-person camera: input handling,
//! orientation state, movement-intent decisions, and the fixed-timestep
//! frame-loop state machine. The floating-point numerics that turn these
//! decisions into world-space positions and matrices live in the host
//! application around this crate.

pub mod camera;
pub mod frame;
pub mod input;
pub mod vec3;
