//! A per-tick aerodynamic flight-force model.
//!
//! Given aircraft geometry, current motion and control-surface deflections,
//! the model produces the net force and torque that drive rigid-body motion.
//! All quantities are carried as fixed-point integers: an `i64` holds a value
//! in millionths of the physical unit (metres, radians, newtons, ...), so
//! every arithmetic step has an exact integer specification.

pub mod airfoil;
pub mod control;
pub mod curve;
pub mod fixed;
pub mod forces;
pub mod plane;
pub mod plane_spec;
pub mod trig;
pub mod vec3;
