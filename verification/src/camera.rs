//! The camera: where it stands, where it looks, and what the GPU knows of it.
//!
//! Angles are held in fixed point, in ten-thousandths of a degree, the field
//! of view in units of 1e-8 radians. The position is never computed with
//! here; it is kept as the three 32-bit words the GPU programs read.
//! Everything that needs trigonometry (the view basis, the viewport vectors)
//! is derived from these values by the embedding program whenever the uniform
//! block is rebuilt.

use vstd::prelude::*;
use crate::resource::{PhysicalSize, ResourceAllocator, ResourceId};

verus! {

/// Angle units per degree.
pub const ANGLE_UNIT: i64 = 10_000;

/// The pitch stays strictly between minus and plus this bound (89.99 degrees).
pub const PITCH_BOUND: i64 = 899_900;

/// Yaw of a new camera (90 degrees).
pub const INITIAL_YAW: i64 = 900_000;

/// A point in space, as the words of its three coordinates.
#[derive(Clone, Copy, PartialEq, Eq, Debug, Structural)]
pub struct Position {
    pub x: u32,
    pub y: u32,
    pub z: u32,
}

/// The pitch nearest to `pitch` that lies strictly inside the bounds.
pub open spec fn clamp_pitch(pitch: int) -> int {
    if pitch >= PITCH_BOUND {
        PITCH_BOUND - 1
    } else if pitch <= -PITCH_BOUND {
        1 - PITCH_BOUND
    } else {
        pitch
    }
}

/// The `i64` nearest to `value`.
pub open spec fn saturate(value: int) -> int {
    if value > i64::MAX {
        i64::MAX as int
    } else if value < i64::MIN {
        i64::MIN as int
    } else {
        value
    }
}

/// Pose and optics of the camera.
#[derive(Clone, Copy, PartialEq, Eq, Debug, Structural)]
pub struct PhysicalCamera {
    pub pitch: i64,
    pub yaw: i64,
    pub position: Position,
    /// Vertical field of view, in units of 1e-8 radians.
    pub fov: i128,
    /// Output resolution.
    pub sensor_pixel_size: PhysicalSize,
}

impl PhysicalCamera {
    /// The pitch avoids the poles.
    pub open spec fn wf(&self) -> bool {
        -PITCH_BOUND < self.pitch < PITCH_BOUND
    }

    /// The camera after it was turned to `pitch` and `yaw`.
    pub open spec fn rotated(self, pitch: i64, yaw: i64) -> PhysicalCamera {
        PhysicalCamera { pitch: clamp_pitch(pitch as int) as i64, yaw, ..self }
    }

    /// The camera after the pointer moved by `dx` and `dy` thousandths of a
    /// pixel: a tenth of a degree per pixel, to the right for positive `dx`,
    /// upwards for positive `dy`.
    pub open spec fn turned(self, dx: i64, dy: i64) -> PhysicalCamera {
        PhysicalCamera {
            pitch: clamp_pitch(self.pitch - dy) as i64,
            yaw: saturate(self.yaw + dx) as i64,
            ..self
        }
    }

    /// The camera after a series of pointer motions, each given as `dx` and
    /// `dy`, first to last.
    pub open spec fn turned_by_all(self, motions: Seq<(i64, i64)>) -> PhysicalCamera
        decreases motions.len(),
    {
        if motions.len() == 0 {
            self
        } else {
            self.turned_by_all(motions.drop_last()).turned(motions.last().0, motions.last().1)
        }
    }

    /// No series of pointer motions, however large, takes the pitch to a
    /// pole: after at least one motion, or from a pitch within bounds, the
    /// pitch is within bounds.
    pub proof fn lemma_pitch_stays_clamped(self, motions: Seq<(i64, i64)>)
        requires
            self.wf() || motions.len() > 0,
        ensures
            self.turned_by_all(motions).wf(),
        decreases motions.len(),
    {
        if motions.len() > 1 {
            self.lemma_pitch_stays_clamped(motions.drop_last());
        }
    }

    /// Turning to given angles leaves the pitch within bounds, whatever the
    /// angles and whatever the camera was before.
    pub proof fn lemma_rotated_is_clamped(self, pitch: i64, yaw: i64)
        ensures
            self.rotated(pitch, yaw).wf(),
            -PITCH_BOUND < pitch < PITCH_BOUND ==> self.rotated(pitch, yaw).pitch == pitch,
    {
    }

    /// Takes over a new output resolution.
    pub fn resize(&mut self, size: PhysicalSize)
        ensures
            *final(self) == (PhysicalCamera { sensor_pixel_size: size, ..*old(self) }),
    {
        self.sensor_pixel_size = size;
    }
}

/// The camera state that one uniform block was derived from. The block on
/// the GPU is a function of these values and of nothing else.
#[derive(Clone, Copy, PartialEq, Eq, Debug, Structural)]
pub struct CameraUniform {
    pub source: PhysicalCamera,
}

/// The GPU buffer of the camera uniform and what was last written to it.
#[derive(Clone, Copy, PartialEq, Eq, Debug, Structural)]
pub struct UniformBuffer {
    pub id: ResourceId,
    pub contents: CameraUniform,
}

/// The camera with its uniform block and the buffer that holds it.
#[derive(Clone, Copy, PartialEq, Eq, Debug, Structural)]
pub struct Camera {
    pub camera: PhysicalCamera,
    pub uniform: CameraUniform,
    pub buffer: UniformBuffer,
}

impl Camera {
    /// The uniform block is the one of the current camera state.
    pub open spec fn built(&self) -> bool {
        self.uniform.source == self.camera
    }

    /// The buffer holds the current uniform block.
    pub open spec fn uploaded(&self) -> bool {
        self.buffer.contents == self.uniform
    }

    /// Pitch within bounds, uniform block and buffer up to date.
    pub open spec fn wf(&self) -> bool {
        self.camera.wf() && self.built() && self.uploaded()
    }

    /// A camera at the origin that looks along the negative z axis, with its
    /// uniform block built and written to a new buffer.
    pub fn new(alloc: &mut ResourceAllocator, size: PhysicalSize, fov: i128) -> (r: Camera)
        requires
            old(alloc).has_room(1),
        ensures
            r.wf(),
            r.camera == (PhysicalCamera {
                pitch: 0,
                yaw: INITIAL_YAW,
                position: Position { x: 0, y: 0, z: 0 },
                fov,
                sensor_pixel_size: size,
            }),
            r.buffer.id.0 == old(alloc).next(),
            final(alloc).next() == old(alloc).next() + 1,
    {
        let camera = PhysicalCamera {
            pitch: 0,
            yaw: INITIAL_YAW,
            position: Position { x: 0, y: 0, z: 0 },
            fov,
            sensor_pixel_size: size,
        };
        let uniform = CameraUniform { source: camera };
        let buffer = UniformBuffer { id: alloc.allocate(), contents: uniform };
        let mut r = Camera { camera, uniform, buffer };
        r.build_uniform();
        r.update_buffer();
        r
    }

    /// Moves the camera, then rebuilds and uploads the uniform block.
    pub fn set_position(&mut self, position: Position)
        ensures
            final(self).camera == (PhysicalCamera { position, ..old(self).camera }),
            final(self).built(),
            final(self).uploaded(),
            final(self).buffer.id == old(self).buffer.id,
    {
        self.camera.position = position;
        self.build_uniform();
        self.update_buffer();
    }

    /// Turns the camera to the given angles, the pitch being brought inside
    /// its bounds first, then rebuilds and uploads the uniform block.
    pub fn set_rotation(&mut self, pitch: i64, yaw: i64)
        ensures
            final(self).camera == old(self).camera.rotated(pitch, yaw),
            final(self).camera.wf(),
            final(self).built(),
            final(self).uploaded(),
            final(self).buffer.id == old(self).buffer.id,
    {
        self.camera.yaw = yaw;
        self.camera.pitch = if pitch >= PITCH_BOUND {
            PITCH_BOUND - 1
        } else if pitch <= -PITCH_BOUND {
            1 - PITCH_BOUND
        } else {
            pitch
        };
        self.build_uniform();
        self.update_buffer();
    }

    /// Turns the camera by a pointer motion of `dx` and `dy` thousandths of
    /// a pixel, then rebuilds and uploads the uniform block.
    pub fn turn(&mut self, dx: i64, dy: i64)
        ensures
            final(self).camera == old(self).camera.turned(dx, dy),
            final(self).camera.wf(),
            final(self).built(),
            final(self).uploaded(),
            final(self).buffer.id == old(self).buffer.id,
    {
        let pitch: i128 = self.camera.pitch as i128 - dy as i128;
        let yaw: i128 = self.camera.yaw as i128 + dx as i128;
        let pitch: i64 = if pitch >= PITCH_BOUND as i128 {
            PITCH_BOUND - 1
        } else if pitch <= -(PITCH_BOUND as i128) {
            1 - PITCH_BOUND
        } else {
            pitch as i64
        };
        let yaw: i64 = if yaw > i64::MAX as i128 {
            i64::MAX
        } else if yaw < i64::MIN as i128 {
            i64::MIN
        } else {
            yaw as i64
        };
        self.camera.yaw = yaw;
        self.camera.pitch = pitch;
        self.build_uniform();
        self.update_buffer();
    }

    /// Sets the vertical field of view, in units of 1e-8 radians, then
    /// rebuilds and uploads the uniform block.
    pub fn set_fov(&mut self, fov: i128)
        ensures
            final(self).camera == (PhysicalCamera { fov, ..old(self).camera }),
            final(self).built(),
            final(self).uploaded(),
            final(self).buffer.id == old(self).buffer.id,
    {
        self.camera.fov = fov;
        self.build_uniform();
        self.update_buffer();
    }

    /// Takes over a new output resolution, then rebuilds and uploads the
    /// uniform block.
    pub fn resize(&mut self, size: PhysicalSize)
        ensures
            final(self).camera == (PhysicalCamera { sensor_pixel_size: size, ..old(self).camera }),
            final(self).built(),
            final(self).uploaded(),
            final(self).buffer.id == old(self).buffer.id,
    {
        self.camera.resize(size);
        self.build_uniform();
        self.update_buffer();
    }

    /// Moves the uniform block to a buffer of its own that did not exist
    /// before. Every binding over the old buffer is stale after this.
    pub fn reallocate_buffer(&mut self, alloc: &mut ResourceAllocator)
        requires
            old(alloc).has_room(1),
        ensures
            final(self).buffer.id.0 == old(alloc).next(),
            final(alloc).next() == old(alloc).next() + 1,
            final(self).uploaded(),
            final(self).camera == old(self).camera,
            final(self).uniform == old(self).uniform,
    {
        self.buffer = UniformBuffer { id: alloc.allocate(), contents: self.uniform };
    }

    /// Records the current uniform block as the contents of the buffer.
    pub fn update_buffer(&mut self)
        ensures
            final(self).uploaded(),
            final(self).camera == old(self).camera,
            final(self).uniform == old(self).uniform,
            final(self).buffer.id == old(self).buffer.id,
    {
        self.buffer.contents = self.uniform;
    }

    /// Rebuilds the uniform block from the current camera state. The block
    /// changes exactly if position, rotation, field of view or resolution
    /// are not the ones it was last built from.
    pub fn build_uniform(&mut self)
        ensures
            final(self).built(),
            final(self).camera == old(self).camera,
            final(self).buffer == old(self).buffer,
            final(self).uniform != old(self).uniform <==> (old(self).camera.position
                != old(self).uniform.source.position || old(self).camera.pitch
                != old(self).uniform.source.pitch || old(self).camera.yaw
                != old(self).uniform.source.yaw || old(self).camera.fov
                != old(self).uniform.source.fov || old(self).camera.sensor_pixel_size
                != old(self).uniform.source.sensor_pixel_size),
    {
        self.uniform = CameraUniform { source: self.camera };
    }
}

} // verus!
