//! Orbit-camera controller: converts per-frame pointer-drag and scroll input
//! into the yaw/pitch/distance state of a camera orbiting a fixed focus point.
//!
//! All quantities are fixed-point integers so that every step of the update
//! rule can be stated and proved exactly: angles and world lengths are held in
//! millionths (micro-radians, micro-units), input deltas in thousandths
//! (milli-device-units, milli-scroll-lines).

pub mod controller;
pub mod laws;
pub mod state;

pub use controller::update;
pub use controller::run_frame;
pub use controller::FrameOutcome;
pub use state::OrbitState;
pub use state::PointerDelta;
pub use state::Vec3Fixed;
