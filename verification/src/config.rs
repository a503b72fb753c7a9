//! Tunable quantities of the renderer.
//!
//! Real-valued settings are held in fixed point, in ten-thousandths: a field
//! value of 15 000 stands for 1.5.

use vstd::prelude::*;

verus! {

/// What 1.0 is in the fixed-point scale of the settings.
pub const UNIT: u32 = 10_000;

/// What one zoom step (0.01) is in the fixed-point scale of the settings.
pub const ZOOM_STEP: i32 = 100;

/// The settings that input actions read and change.
#[derive(Clone, Copy, PartialEq, Eq, Debug, Structural)]
pub struct StateConfigs {
    /// Factor on the field of view while zooming, before any zoom offset.
    pub base_zoom: u32,
    /// Distance the camera travels per tick while a movement key is held.
    pub speed: u32,
    /// Focal length of the camera.
    pub focal: u32,
    /// Vertical field of view in radians when not zooming.
    pub fov: u32,
    /// Pointer sensitivity. Turning the camera goes by a fixed rate and does
    /// not read it.
    pub sensitivity: u32,
}

/// The vertical field of view, in units of 1e-8 radians, for a field of view
/// `base_fov`, a zoom factor `base_zoom` and a zoom offset `zoom`, all three
/// in ten-thousandths: `base_fov * (base_zoom + zoom)`.
pub open spec fn zoomed_fov(base_fov: u32, base_zoom: u32, zoom: i32) -> int {
    base_fov * (base_zoom + zoom)
}

/// The vertical field of view, in units of 1e-8 radians, for a field of view
/// `base_fov` in ten-thousandths and no zoom at all.
pub open spec fn plain_fov(base_fov: u32) -> int {
    base_fov * UNIT
}

impl StateConfigs {
    /// Zoom factor 1.5, speed 0.04, focal length 1, field of view 1.5708 rad,
    /// sensitivity 0.1.
    pub fn default() -> (r: StateConfigs)
        ensures
            r == (StateConfigs {
                base_zoom: 15_000,
                speed: 400,
                focal: 10_000,
                fov: 15_708,
                sensitivity: 1_000,
            }),
    {
        StateConfigs { base_zoom: 15_000, speed: 400, focal: 10_000, fov: 15_708, sensitivity: 1_000 }
    }

    /// The field of view when not zooming, in units of 1e-8 radians.
    pub fn base_fov(&self) -> (r: i128)
        ensures
            r == plain_fov(self.fov),
    {
        assert(0 <= self.fov * UNIT <= 0xffff_ffff * 10_000) by (nonlinear_arith)
            requires
                0 <= self.fov <= 0xffff_ffff,
                UNIT == 10_000,
        ;
        self.fov as i128 * UNIT as i128
    }

    /// The field of view while zooming with offset `zoom`, in units of 1e-8
    /// radians.
    pub fn effective_fov(&self, zoom: i32) -> (r: i128)
        ensures
            r == zoomed_fov(self.fov, self.base_zoom, zoom),
    {
        let factor: i128 = self.base_zoom as i128 + zoom as i128;
        assert(-0x1_0000_0000 * 0x1_0000_0000 <= self.fov * factor <= 0x1_0000_0000
            * 0x2_0000_0000) by (nonlinear_arith)
            requires
                0 <= self.fov <= 0xffff_ffff,
                -0x8000_0000 <= factor <= 0x1_7fff_ffff,
        ;
        self.fov as i128 * factor
    }
}

} // verus!
