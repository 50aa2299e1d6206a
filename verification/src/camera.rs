//! Configuration of the damped free-look camera rig.
//!
//! The rig chains a position driver, a yaw/pitch driver and a smoothing
//! driver: pointer deltas accumulate yaw and pitch targets, and each
//! update advances the smoothed state toward those targets by one
//! damping step. The arithmetic of that filter runs on floats outside
//! this crate; what the engine fixes — and this module states — are the
//! rig's rules: where the camera starts, how strongly deltas steer it,
//! which way pitch turns, and by how much time each input event
//! advances the damping. Every constant is the IEEE-754 bit pattern of
//! the float the rig is built with.

use vstd::prelude::*;

verus! {

/// Yaw gain per unit of pointer delta: bits of the 32-bit float 0.3.
pub const YAW_SENSITIVITY_BITS: u32 = 0x3E99_999A;

/// Pitch gain per unit of pointer delta: bits of the 32-bit float
/// -0.3 — the same magnitude as the yaw gain, with the sign inverted.
pub const PITCH_SENSITIVITY_BITS: u32 = 0xBE99_999A;

/// Timestep of the damping step taken after every pointer event: bits
/// of the 32-bit float 1/120.
pub const INPUT_TIMESTEP_BITS: u32 = 0x3C08_8889;

/// Smoothing factor of the position filter: bits of the float 1.0.
pub const POSITION_SMOOTHING_BITS: u32 = 0x3F80_0000;

/// Smoothing factor of the rotation filter: bits of the float 1.0.
pub const ROTATION_SMOOTHING_BITS: u32 = 0x3F80_0000;

/// Starting camera position (0, 1, 0): x component bits.
pub const CAMERA_START_X_BITS: u32 = 0;

/// Starting camera position (0, 1, 0): y component bits of 1.0.
pub const CAMERA_START_Y_BITS: u32 = 0x3F80_0000;

/// Starting camera position (0, 1, 0): z component bits.
pub const CAMERA_START_Z_BITS: u32 = 0;

} // verus!
