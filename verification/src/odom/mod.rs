//! Odometry: wheels, heading resolution, pose integration and the tracking
//! rig that ties them together.

pub mod heading;
pub mod integrator;
pub mod laws;
pub mod pose;
pub mod rig;
pub mod velocity;
pub mod wheel;
