//! The resolution-dependent allocations: the image the compute stage writes
//! and the raster stage samples, and the two accumulation buffers.

use vstd::prelude::*;
use crate::resource::{PhysicalSize, ResourceAllocator, ResourceId};

verus! {

/// Bytes of one accumulated sample: four 32-bit channels.
pub const SAMPLE_BYTES: u64 = 16;

/// An accumulation buffer with one sample per pixel.
#[derive(Clone, Copy, PartialEq, Eq, Debug, Structural)]
pub struct TextureBuffer {
    pub id: ResourceId,
    pub size: PhysicalSize,
}

impl TextureBuffer {
    /// Number of samples the buffer holds.
    pub open spec fn spec_sample_count(&self) -> int {
        self.size.width * self.size.height
    }

    /// Number of samples the buffer holds: one per pixel.
    pub fn sample_count(&self) -> (n: u64)
        ensures
            n == self.spec_sample_count(),
    {
        let width = self.size.width;
        let height = self.size.height;
        assert(width * height <= 0xffff_ffff * 0xffff_ffff) by (nonlinear_arith)
            requires
                width <= 0xffff_ffff,
                height <= 0xffff_ffff,
        ;
        width as u64 * height as u64
    }
}

/// A view of the output image.
#[derive(Clone, Copy, PartialEq, Eq, Debug, Structural)]
pub struct TextureView {
    pub id: ResourceId,
    pub size: PhysicalSize,
}

/// The allocations that exist once per output resolution.
#[derive(Clone, Copy, PartialEq, Eq, Debug, Structural)]
pub struct Textures {
    pub texture_buffer_a: TextureBuffer,
    pub texture_buffer_b: TextureBuffer,
    pub surface_texture_view: TextureView,
}

impl Textures {
    /// All three allocations have the resolution `size`.
    pub open spec fn sized(&self, size: PhysicalSize) -> bool {
        &&& self.texture_buffer_a.size == size
        &&& self.texture_buffer_b.size == size
        &&& self.surface_texture_view.size == size
    }

    /// The three allocations are distinct and share one resolution.
    pub open spec fn wf(&self) -> bool {
        &&& self.sized(self.surface_texture_view.size)
        &&& self.texture_buffer_a.id != self.texture_buffer_b.id
        &&& self.texture_buffer_a.id != self.surface_texture_view.id
        &&& self.texture_buffer_b.id != self.surface_texture_view.id
    }

    /// Whether `id` is one of the three allocations.
    pub open spec fn owns(&self, id: ResourceId) -> bool {
        id == self.texture_buffer_a.id || id == self.texture_buffer_b.id || id
            == self.surface_texture_view.id
    }

    /// Allocates the output image and both accumulation buffers anew for the
    /// given resolution.
    pub fn new(alloc: &mut ResourceAllocator, size: PhysicalSize) -> (r: Textures)
        requires
            old(alloc).has_room(3),
        ensures
            r.wf(),
            r.sized(size),
            r.surface_texture_view.id.0 == old(alloc).next(),
            r.texture_buffer_a.id.0 == old(alloc).next() + 1,
            r.texture_buffer_b.id.0 == old(alloc).next() + 2,
            final(alloc).next() == old(alloc).next() + 3,
    {
        let view_id = alloc.allocate();
        let a_id = alloc.allocate();
        let b_id = alloc.allocate();
        Textures {
            texture_buffer_a: TextureBuffer { id: a_id, size },
            texture_buffer_b: TextureBuffer { id: b_id, size },
            surface_texture_view: TextureView { id: view_id, size },
        }
    }
}

} // verus!
