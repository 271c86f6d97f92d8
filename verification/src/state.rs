//! The orbit state and its fixed-point units.
//!
//! Angles are stored in micro-radians and world lengths in micro-units
//! (1_000_000 to one). Input samples arrive in milli-device-units and
//! milli-scroll-lines (1_000 to one). With these scales every constant of the
//! control rule is an exact integer: a rotate sensitivity of 0.003 radians per
//! device unit is 3 micro-radians per milli-unit, and a zoom sensitivity of
//! 0.5 world units per scroll line is 500 micro-units per milli-line.

use vstd::prelude::*;

verus! {

/// Lower clamp bound on the orbit distance: 2.0 world units.
pub const DISTANCE_MIN_MICRO: i64 = 2_000_000;

/// Upper clamp bound on the orbit distance: 20.0 world units.
pub const DISTANCE_MAX_MICRO: i64 = 20_000_000;

/// Lower clamp bound on the pitch angle: -1.5 radians, just short of
/// straight down, so the look direction can never flip past vertical.
pub const PITCH_MIN_MICRO: i64 = -1_500_000;

/// Upper clamp bound on the pitch angle: 1.5 radians.
pub const PITCH_MAX_MICRO: i64 = 1_500_000;

/// Rotate sensitivity: 0.003 radians per device unit of pointer motion,
/// expressed as micro-radians per milli-device-unit.
pub const ROTATE_SENS: i64 = 3;

/// Zoom sensitivity: 0.5 world units per scroll line, expressed as
/// micro-units per milli-line.
pub const ZOOM_SENS: i64 = 500;

/// Largest magnitude accepted for a single input sample, in milli-units
/// (a billion device units). Real devices report a few hundred units per
/// sample; the bound only keeps the fixed-point accumulation inside `i128`.
pub const DELTA_LIMIT_MILLI: i64 = 1_000_000_000_000;

/// Distance of a freshly created orbit: 5.0 world units.
pub const INITIAL_DISTANCE_MICRO: i64 = 5_000_000;

/// Pitch of a freshly created orbit: 0.4 radians.
pub const INITIAL_PITCH_MICRO: i64 = 400_000;

/// A point or offset in world space, in micro-units per axis.
#[derive(Clone, Copy, Debug, PartialEq, Eq, Structural)]
pub struct Vec3Fixed {
    pub x: i64,
    pub y: i64,
    pub z: i64,
}

/// One pointer-motion sample, in milli-device-units per axis.
#[derive(Clone, Copy, Debug, PartialEq, Eq, Structural)]
pub struct PointerDelta {
    pub dx: i64,
    pub dy: i64,
}

/// The state of one orbit camera: the focus point it looks at, its radial
/// distance from that point, and the two orbit angles.
///
/// `yaw` turns about the world up axis and is never clamped; `pitch` turns
/// about the local right axis and is kept inside `[-1.5, 1.5]` radians;
/// `distance` is kept inside `[2.0, 20.0]` world units. `focus` never changes
/// for the lifetime of the state.
#[derive(Clone, Copy, Debug, PartialEq, Eq, Structural)]
pub struct OrbitState {
    pub focus: Vec3Fixed,
    pub distance: i64,
    pub yaw: i64,
    pub pitch: i64,
}

impl OrbitState {
    /// The clamp invariants: distance and pitch inside their fixed bounds.
    pub open spec fn wf(self) -> bool {
        &&& DISTANCE_MIN_MICRO <= self.distance <= DISTANCE_MAX_MICRO
        &&& PITCH_MIN_MICRO <= self.pitch <= PITCH_MAX_MICRO
    }

    /// The state every session starts from: distance 5.0, yaw 0, pitch 0.4,
    /// focus at the world origin.
    pub fn initial() -> (s: Self)
        ensures
            s.focus == (Vec3Fixed { x: 0, y: 0, z: 0 }),
            s.distance == INITIAL_DISTANCE_MICRO,
            s.yaw == 0,
            s.pitch == INITIAL_PITCH_MICRO,
            s.wf(),
    {
        OrbitState {
            focus: Vec3Fixed { x: 0, y: 0, z: 0 },
            distance: INITIAL_DISTANCE_MICRO,
            yaw: 0,
            pitch: INITIAL_PITCH_MICRO,
        }
    }
}

} // verus!
