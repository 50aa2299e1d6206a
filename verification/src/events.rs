//! Events the engine consumes and actions it hands back.
//!
//! The engine core is a single long-lived state object reacting to a
//! sequence of external events. The window and input collaborator
//! delivers exactly four kinds of event — a resize, a close request, a
//! key press, a pointer motion — plus the periodic frame tick, and the
//! core answers each with one action for the collaborator to perform.
//! Floating-point quantities inside events and actions travel as
//! IEEE-754 bit patterns.

use vstd::prelude::*;

verus! {

/// A pressed key, as far as the engine cares: the exit key or any other.
#[derive(Clone, Copy, PartialEq, Eq, Structural, Debug)]
pub enum Key {
    Escape,
    Other,
}

/// One external event delivered to the engine core.
#[derive(Clone, Copy, PartialEq, Eq, Structural, Debug)]
pub enum Event {
    /// The window's drawable size changed.
    Resized { width: u32, height: u32 },
    /// The window with the given identifier was asked to close.
    CloseRequested { window_id: u64 },
    /// A key went down.
    KeyPressed { key: Key },
    /// Raw pointer motion; the two deltas are the bit patterns of
    /// 64-bit floats.
    PointerMotion { dx_bits: u64, dy_bits: u64 },
    /// All pending events are dispatched; a frame may be drawn.
    FrameTick,
}

/// Everything the collaborator needs to draw one frame: the extent to
/// present at and the fixed projection and clear parameters.
#[derive(Clone, Copy, PartialEq, Eq, Structural, Debug)]
pub struct FramePlan {
    /// Width the surface is configured with; the frame presents at it.
    pub width: u32,
    /// Height the surface is configured with; the frame presents at it.
    pub height: u32,
    /// Vertical field of view of the perspective projection, in degrees.
    pub fov_y_degrees: u32,
    /// Near clip plane distance: bits of a 32-bit float.
    pub near_bits: u32,
    /// Far clip plane distance: bits of a 32-bit float.
    pub far_bits: u32,
    /// Clear-color red channel: bits of a 64-bit float.
    pub clear_red_bits: u64,
    /// Clear-color green channel: bits of a 64-bit float.
    pub clear_green_bits: u64,
    /// Clear-color blue channel: bits of a 64-bit float.
    pub clear_blue_bits: u64,
    /// Clear-color alpha channel: bits of a 64-bit float.
    pub clear_alpha_bits: u64,
}

/// The engine core's answer to one event.
#[derive(Clone, Copy, PartialEq, Eq, Structural, Debug)]
pub enum Action {
    /// Nothing to do; keep waiting for events.
    Wait,
    /// Leave the event loop.
    Exit,
    /// Reconfigure the surface to the given extent before the next
    /// frame acquisition.
    Reconfigure { width: u32, height: u32 },
    /// Feed the raw pointer deltas to the camera rig — scaled by the
    /// rig's sensitivity, pitch inverted — then advance its damping by
    /// one fixed input timestep.
    RotateCamera { dx_bits: u64, dy_bits: u64 },
    /// Draw and present one frame as the plan says.
    RenderFrame { plan: FramePlan },
}

} // verus!
