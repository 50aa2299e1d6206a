//! The engine: surface-configuration bookkeeping and the event loop's
//! decisions.
//!
//! The engine owns the surface configuration and the geometry
//! pipeline, and reacts to the external event stream: a resize updates
//! the stored extent and demands a surface reconfiguration before the
//! next frame, a close request or the exit key ends the loop, pointer
//! motion steers the camera rig, and the frame tick yields the plan of
//! one drawn frame. `step` and `action_for` are the whole transition
//! relation; `handle_event` is proved to follow them exactly, so a
//! scripted event sequence pins down everything the engine decides.

use crate::events::Action;
use crate::events::Event;
use crate::events::FramePlan;
use crate::events::Key;
use crate::geometry_renderer::render_commands_spec;
use crate::geometry_renderer::GeometryRenderer;
use crate::geometry_renderer::PassCommand;
use crate::matrix::identity_words;
use vstd::prelude::*;

verus! {

/// Width the window and surface start with.
pub const DEFAULT_WIDTH: u32 = 2560;

/// Height the window and surface start with.
pub const DEFAULT_HEIGHT: u32 = 1440;

/// Vertical field of view of the perspective projection, in degrees.
pub const FOV_Y_DEGREES: u32 = 90;

/// Near clip plane distance: bits of the 32-bit float 0.1.
pub const NEAR_PLANE_BITS: u32 = 0x3DCC_CCCD;

/// Far clip plane distance: bits of the 32-bit float 1000.0.
pub const FAR_PLANE_BITS: u32 = 0x447A_0000;

/// Clear-color red channel: bits of the 64-bit float 0.0.
pub const CLEAR_RED_BITS: u64 = 0;

/// Clear-color green channel: bits of the 64-bit float 1.0 — every
/// frame starts from opaque green.
pub const CLEAR_GREEN_BITS: u64 = 0x3FF0_0000_0000_0000;

/// Clear-color blue channel: bits of the 64-bit float 0.0.
pub const CLEAR_BLUE_BITS: u64 = 0;

/// Clear-color alpha channel: bits of the 64-bit float 1.0.
pub const CLEAR_ALPHA_BITS: u64 = 0x3FF0_0000_0000_0000;

/// Fixed translation composed after the view matrix, x component bits.
pub const VIEW_OFFSET_X_BITS: u32 = 0;

/// Fixed translation composed after the view matrix, y component bits.
pub const VIEW_OFFSET_Y_BITS: u32 = 0;

/// Fixed translation composed after the view matrix: the z component
/// is the 32-bit float 1.0 — the view is nudged one unit along z.
pub const VIEW_OFFSET_Z_BITS: u32 = 0x3F80_0000;

/// The surface configuration the engine keeps synchronized with the
/// window's drawable size.
#[derive(Clone, Copy, PartialEq, Eq, Structural, Debug)]
pub struct SurfaceConfig {
    pub width: u32,
    pub height: u32,
}

/// The engine's state: the configured surface extent, the identifier
/// of the window the surface is bound to, and the geometry pipeline.
pub struct Engine {
    pub surface_config: SurfaceConfig,
    pub window_id: u64,
    pub geometry_renderer: GeometryRenderer,
}

/// The engine after its surface configuration moved to a new extent.
pub open spec fn with_extent(e: Engine, width: u32, height: u32) -> Engine {
    Engine { surface_config: SurfaceConfig { width, height }, ..e }
}

/// The plan of one frame drawn from the given engine state: present at
/// exactly the configured extent, with the fixed projection and clear
/// parameters.
pub open spec fn frame_plan_of(e: Engine) -> FramePlan {
    FramePlan {
        width: e.surface_config.width,
        height: e.surface_config.height,
        fov_y_degrees: FOV_Y_DEGREES,
        near_bits: NEAR_PLANE_BITS,
        far_bits: FAR_PLANE_BITS,
        clear_red_bits: CLEAR_RED_BITS,
        clear_green_bits: CLEAR_GREEN_BITS,
        clear_blue_bits: CLEAR_BLUE_BITS,
        clear_alpha_bits: CLEAR_ALPHA_BITS,
    }
}

/// The state transition of one event: a resize to a positive extent
/// stores that extent; every other event leaves the engine unchanged.
/// A resize with a zero side is ignored — a surface cannot be
/// configured to a zero extent, and the stored configuration must keep
/// matching a drawable size.
pub open spec fn step(e: Engine, ev: Event) -> Engine {
    match ev {
        Event::Resized { width, height } => {
            if 0 < width && 0 < height {
                with_extent(e, width, height)
            } else {
                e
            }
        },
        _ => e,
    }
}

/// The action one event demands of the collaborator around the engine.
pub open spec fn action_for(e: Engine, ev: Event) -> Action {
    match ev {
        Event::Resized { width, height } => {
            if 0 < width && 0 < height {
                Action::Reconfigure { width, height }
            } else {
                Action::Wait
            }
        },
        Event::CloseRequested { window_id } => {
            if window_id == e.window_id {
                Action::Exit
            } else {
                Action::Wait
            }
        },
        Event::KeyPressed { key } => {
            match key {
                Key::Escape => Action::Exit,
                Key::Other => Action::Wait,
            }
        },
        Event::PointerMotion { dx_bits, dy_bits } => Action::RotateCamera { dx_bits, dy_bits },
        Event::FrameTick => Action::RenderFrame { plan: frame_plan_of(e) },
    }
}

impl Engine {
    /// The engine is well formed while the configured extent is
    /// drawable and the pipeline's uniform state is intact.
    pub open spec fn wf(&self) -> bool {
        &&& 0 < self.surface_config.width
        &&& 0 < self.surface_config.height
        &&& self.geometry_renderer.wf()
    }

    /// Creates the engine for the window with the given identifier:
    /// the surface starts at the default extent and the uniform buffer
    /// at the identity matrix.
    pub fn new(window_id: u64) -> (e: Engine)
        ensures
            e.wf(),
            e.surface_config == (SurfaceConfig { width: DEFAULT_WIDTH, height: DEFAULT_HEIGHT }),
            e.window_id == window_id,
            e.geometry_renderer.uniform_words() == identity_words(),
    {
        Engine {
            surface_config: SurfaceConfig { width: DEFAULT_WIDTH, height: DEFAULT_HEIGHT },
            window_id,
            geometry_renderer: GeometryRenderer::new(),
        }
    }

    /// Stores the new drawable extent. The surface must be
    /// reconfigured with it before the next frame acquisition; the
    /// paired `Reconfigure` action carries exactly this extent out.
    pub fn resize(&mut self, width: u32, height: u32)
        requires
            old(self).wf(),
            0 < width,
            0 < height,
        ensures
            *final(self) == with_extent(*old(self), width, height),
            final(self).wf(),
    {
        self.surface_config = SurfaceConfig { width, height };
    }

    /// The plan of the next frame: it presents at the configured
    /// extent with the fixed projection and clear parameters.
    pub fn frame_plan(&self) -> (plan: FramePlan)
        requires
            self.wf(),
        ensures
            plan == frame_plan_of(*self),
    {
        FramePlan {
            width: self.surface_config.width,
            height: self.surface_config.height,
            fov_y_degrees: FOV_Y_DEGREES,
            near_bits: NEAR_PLANE_BITS,
            far_bits: FAR_PLANE_BITS,
            clear_red_bits: CLEAR_RED_BITS,
            clear_green_bits: CLEAR_GREEN_BITS,
            clear_blue_bits: CLEAR_BLUE_BITS,
            clear_alpha_bits: CLEAR_ALPHA_BITS,
        }
    }

    /// Records one frame's render-pass commands.
    pub fn render(&self) -> (cmds: Vec<PassCommand>)
        ensures
            cmds@ == render_commands_spec(),
    {
        self.geometry_renderer.render()
    }

    /// Reacts to one external event: the state moves by `step` and the
    /// returned action is `action_for`, exactly.
    pub fn handle_event(&mut self, event: Event) -> (action: Action)
        requires
            old(self).wf(),
        ensures
            *final(self) == step(*old(self), event),
            action == action_for(*old(self), event),
            final(self).wf(),
    {
        match event {
            Event::Resized { width, height } => {
                if 0 < width && 0 < height {
                    self.resize(width, height);
                    Action::Reconfigure { width, height }
                } else {
                    Action::Wait
                }
            },
            Event::CloseRequested { window_id } => {
                if window_id == self.window_id {
                    Action::Exit
                } else {
                    Action::Wait
                }
            },
            Event::KeyPressed { key } => {
                match key {
                    Key::Escape => Action::Exit,
                    Key::Other => Action::Wait,
                }
            },
            Event::PointerMotion { dx_bits, dy_bits } => Action::RotateCamera { dx_bits, dy_bits },
            Event::FrameTick => Action::RenderFrame { plan: self.frame_plan() },
        }
    }

    /// The geometry pipeline.
    pub fn geometry_renderer(&self) -> (r: &GeometryRenderer)
        ensures
            *r == self.geometry_renderer,
    {
        &self.geometry_renderer
    }

    /// The geometry pipeline, for per-frame uniform updates.
    pub fn geometry_renderer_mut(&mut self) -> (r: &mut GeometryRenderer)
        ensures
            *r == old(self).geometry_renderer,
            final(self).surface_config == old(self).surface_config,
            final(self).window_id == old(self).window_id,
            final(self).geometry_renderer == *final(r),
    {
        &mut self.geometry_renderer
    }
}

/// Law: after a resize to a drawable extent, the stored surface
/// configuration holds exactly that extent, the engine stays well
/// formed, the paired action reconfigures the surface to the same
/// extent in the same step — so the next frame acquisition meets a
/// configuration that matches the window again — and the next frame
/// tick plans a frame presented at exactly that extent.
pub proof fn lemma_resize_then_frame_extent(e: Engine, width: u32, height: u32)
    requires
        e.wf(),
        0 < width,
        0 < height,
    ensures
        step(e, Event::Resized { width, height }).surface_config == (SurfaceConfig {
            width,
            height,
        }),
        step(e, Event::Resized { width, height }).wf(),
        action_for(e, Event::Resized { width, height }) == (Action::Reconfigure {
            width,
            height,
        }),
        frame_plan_of(step(e, Event::Resized { width, height })).width == width,
        frame_plan_of(step(e, Event::Resized { width, height })).height == height,
        action_for(step(e, Event::Resized { width, height }), Event::FrameTick)
            == (Action::RenderFrame {
            plan: frame_plan_of(step(e, Event::Resized { width, height })),
        }),
{
}

} // verus!
