//! Fixed-point odometry for a wheeled robot.
//!
//! Passive tracking wheels and an optional inertial heading sensor are fused
//! into a pose (x, y, heading) and a velocity estimate. The crate performs no
//! I/O and no floating-point arithmetic: the host reads the sensors, hands the
//! readings in as integers, evaluates the few trigonometric values a tick
//! needs, and publishes the snapshot that comes back.
//!
//! Every length is in nanometres, every angle in nanoradians, every time in
//! nanoseconds; trigonometric values are scaled by [`util::si::UNIT`].

pub mod odom;
pub mod util;

pub use odom::heading::{HeadingError, HeadingState, InertialReading};
pub use odom::integrator::{Axis, Trig};
pub use odom::pose::Pose;
pub use odom::rig::{
    ConfigurationError, TickOutcome, TickPlan, TickStart, TrackingRig, TrackingSnapshot,
};
pub use odom::velocity::VelocityEstimate;
pub use odom::wheel::{OmniWheel, SensorReadError, TrackingWheel};
pub use util::si::Vector2;
pub use util::utils::{Orientation, TrackingWheelOrientation};
