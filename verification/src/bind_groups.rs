//! The registry of binding layouts and bound groups.
//!
//! A layout fixes, slot by slot, what kind of resource a GPU program expects;
//! a group names the allocations that fill those slots. The registry owns one
//! layout per resource family and the groups built for them, and replaces a
//! group as a whole whenever one of the allocations behind it is replaced.

use vstd::prelude::*;
use crate::resource::ResourceId;

verus! {

/// The program stage that can see a binding.
#[derive(Clone, Copy, PartialEq, Eq, Debug, Structural)]
pub enum ShaderStage {
    Compute,
    Fragment,
}

/// What a slot of a layout expects.
#[derive(Clone, Copy, PartialEq, Eq, Debug, Structural)]
pub enum BindingType {
    /// A storage buffer; `read_only` says whether the program may write it.
    StorageBuffer { read_only: bool },
    /// A uniform buffer.
    UniformBuffer,
    /// A write-only two-dimensional storage texture of four 16-bit floats.
    StorageTexture,
    /// A filterable, single-sampled two-dimensional float texture.
    SampledTexture,
    /// A filtering sampler.
    Sampler,
}

/// One slot of a layout.
#[derive(Clone, Copy, PartialEq, Eq, Debug, Structural)]
pub struct BindGroupLayoutEntry {
    pub binding: u32,
    pub visibility: ShaderStage,
    pub ty: BindingType,
}

/// The slots of one resource family, in slot order.
#[derive(Clone, Debug)]
pub struct BindGroupLayout {
    pub entries: Vec<BindGroupLayoutEntry>,
}

impl View for BindGroupLayout {
    type V = Seq<BindGroupLayoutEntry>;

    open spec fn view(&self) -> Seq<BindGroupLayoutEntry> {
        self.entries@
    }
}

impl BindGroupLayout {
    /// A layout with the same slots.
    pub fn duplicate(&self) -> (r: BindGroupLayout)
        ensures
            r@ == self@,
    {
        let mut entries: Vec<BindGroupLayoutEntry> = Vec::new();
        let mut i: usize = 0;
        while i < self.entries.len()
            invariant
                i <= self.entries.len(),
                entries@ == self.entries@.take(i as int),
            decreases self.entries.len() - i,
        {
            entries.push(self.entries[i]);
            assert(entries@ =~= self.entries@.take(i + 1));
            i = i + 1;
        }
        assert(entries@ =~= self.entries@);
        BindGroupLayout { entries }
    }
}

/// The allocation that fills a slot.
#[derive(Clone, Copy, PartialEq, Eq, Debug, Structural)]
pub enum BindingResource {
    Buffer(ResourceId),
    TextureView(ResourceId),
    Sampler(ResourceId),
}

impl BindingResource {
    /// The allocation behind the resource, whatever its kind.
    pub open spec fn spec_id(self) -> ResourceId {
        match self {
            BindingResource::Buffer(id) => id,
            BindingResource::TextureView(id) => id,
            BindingResource::Sampler(id) => id,
        }
    }

    #[verifier::when_used_as_spec(spec_id)]
    pub fn id(self) -> (r: ResourceId)
        ensures
            r == self.spec_id(),
    {
        match self {
            BindingResource::Buffer(id) => id,
            BindingResource::TextureView(id) => id,
            BindingResource::Sampler(id) => id,
        }
    }

    /// Whether a resource of this kind may fill a slot of type `ty`.
    pub open spec fn spec_fits(self, ty: BindingType) -> bool {
        match self {
            BindingResource::Buffer(_) => ty is StorageBuffer || ty is UniformBuffer,
            BindingResource::TextureView(_) => ty is StorageTexture || ty is SampledTexture,
            BindingResource::Sampler(_) => ty is Sampler,
        }
    }

    #[verifier::when_used_as_spec(spec_fits)]
    pub fn fits(self, ty: BindingType) -> (r: bool)
        ensures
            r == self.spec_fits(ty),
    {
        match self {
            BindingResource::Buffer(_) => match ty {
                BindingType::StorageBuffer { .. } => true,
                BindingType::UniformBuffer => true,
                _ => false,
            },
            BindingResource::TextureView(_) => match ty {
                BindingType::StorageTexture => true,
                BindingType::SampledTexture => true,
                _ => false,
            },
            BindingResource::Sampler(_) => match ty {
                BindingType::Sampler => true,
                _ => false,
            },
        }
    }
}

/// One filled slot of a group.
#[derive(Clone, Copy, PartialEq, Eq, Debug, Structural)]
pub struct BindGroupEntry {
    pub binding: u32,
    pub resource: BindingResource,
}

/// The filled slots of one group, in slot order.
#[derive(Clone, Debug)]
pub struct BindGroup {
    pub entries: Vec<BindGroupEntry>,
}

impl View for BindGroup {
    type V = Seq<BindGroupEntry>;

    open spec fn view(&self) -> Seq<BindGroupEntry> {
        self.entries@
    }
}

/// A group conforms to a layout when it fills exactly the layout's slots, in
/// order, each with a resource of a fitting kind.
pub open spec fn conforms(group: Seq<BindGroupEntry>, layout: Seq<BindGroupLayoutEntry>) -> bool {
    &&& group.len() == layout.len()
    &&& forall|i: int|
        0 <= i < group.len() ==> (#[trigger] group[i]).binding == layout[i].binding
            && group[i].resource.spec_fits(layout[i].ty)
}

/// Two groups have the same shape when they fill the same slots with
/// resources of the same kinds, whatever allocations stand behind them.
pub open spec fn same_shape(a: Seq<BindGroupEntry>, b: Seq<BindGroupEntry>) -> bool {
    &&& a.len() == b.len()
    &&& forall|i: int|
        0 <= i < a.len() ==> (#[trigger] a[i]).binding == b[i].binding && (a[i].resource is Buffer
            <==> b[i].resource is Buffer) && (a[i].resource is TextureView
            <==> b[i].resource is TextureView) && (a[i].resource is Sampler
            <==> b[i].resource is Sampler)
}

/// Checks a group against a layout.
pub fn check_conformance(group: &BindGroup, layout: &BindGroupLayout) -> (ok: bool)
    ensures
        ok == conforms(group@, layout@),
{
    if group.entries.len() != layout.entries.len() {
        return false;
    }
    let mut i: usize = 0;
    while i < group.entries.len()
        invariant
            i <= group.entries.len(),
            group.entries.len() == layout.entries.len(),
            forall|j: int|
                0 <= j < i ==> (#[trigger] group@[j]).binding == layout@[j].binding
                    && group@[j].resource.spec_fits(layout@[j].ty),
        decreases group.entries.len() - i,
    {
        let g = group.entries[i];
        let l = layout.entries[i];
        if g.binding != l.binding || !g.resource.fits(l.ty) {
            assert(!(group@[i as int].binding == layout@[i as int].binding
                && group@[i as int].resource.spec_fits(layout@[i as int].ty)));
            return false;
        }
        i = i + 1;
    }
    true
}

/// Slots of the scene-data family: vertex positions, triangles, materials.
pub open spec fn scene_layout() -> Seq<BindGroupLayoutEntry> {
    seq![
        BindGroupLayoutEntry {
            binding: 0,
            visibility: ShaderStage::Compute,
            ty: BindingType::StorageBuffer { read_only: true },
        },
        BindGroupLayoutEntry {
            binding: 1,
            visibility: ShaderStage::Compute,
            ty: BindingType::StorageBuffer { read_only: true },
        },
        BindGroupLayoutEntry {
            binding: 2,
            visibility: ShaderStage::Compute,
            ty: BindingType::StorageBuffer { read_only: true },
        },
    ]
}

/// Slots of the camera family: the camera uniform block.
pub open spec fn camera_layout() -> Seq<BindGroupLayoutEntry> {
    seq![
        BindGroupLayoutEntry {
            binding: 0,
            visibility: ShaderStage::Compute,
            ty: BindingType::UniformBuffer,
        },
    ]
}

/// Slots of the compute-stage family: the output image and the per-frame
/// uniform block.
pub open spec fn compute_layout() -> Seq<BindGroupLayoutEntry> {
    seq![
        BindGroupLayoutEntry {
            binding: 0,
            visibility: ShaderStage::Compute,
            ty: BindingType::StorageTexture,
        },
        BindGroupLayoutEntry {
            binding: 1,
            visibility: ShaderStage::Compute,
            ty: BindingType::UniformBuffer,
        },
    ]
}

/// Slots of an accumulation pairing: the buffer that is read, then the
/// buffer that is written.
pub open spec fn texture_buffer_layout() -> Seq<BindGroupLayoutEntry> {
    seq![
        BindGroupLayoutEntry {
            binding: 0,
            visibility: ShaderStage::Compute,
            ty: BindingType::StorageBuffer { read_only: true },
        },
        BindGroupLayoutEntry {
            binding: 1,
            visibility: ShaderStage::Compute,
            ty: BindingType::StorageBuffer { read_only: false },
        },
    ]
}

/// Slots of the presentation family: the sampled image and its sampler.
pub open spec fn fragment_layout() -> Seq<BindGroupLayoutEntry> {
    seq![
        BindGroupLayoutEntry {
            binding: 0,
            visibility: ShaderStage::Fragment,
            ty: BindingType::SampledTexture,
        },
        BindGroupLayoutEntry {
            binding: 1,
            visibility: ShaderStage::Fragment,
            ty: BindingType::Sampler,
        },
    ]
}

/// The scene-data group over the three scene buffers.
pub open spec fn scene_entries(
    vertex_buffer: ResourceId,
    tri_buffer: ResourceId,
    material_buffer: ResourceId,
) -> Seq<BindGroupEntry> {
    seq![
        BindGroupEntry { binding: 0, resource: BindingResource::Buffer(vertex_buffer) },
        BindGroupEntry { binding: 1, resource: BindingResource::Buffer(tri_buffer) },
        BindGroupEntry { binding: 2, resource: BindingResource::Buffer(material_buffer) },
    ]
}

/// The camera group over the camera uniform buffer.
pub open spec fn camera_entries(camera_buffer: ResourceId) -> Seq<BindGroupEntry> {
    seq![BindGroupEntry { binding: 0, resource: BindingResource::Buffer(camera_buffer) }]
}

/// The compute-stage group over the output image and the per-frame buffer.
pub open spec fn compute_entries(texture_view: ResourceId, frame_buffer: ResourceId) -> Seq<
    BindGroupEntry,
> {
    seq![
        BindGroupEntry { binding: 0, resource: BindingResource::TextureView(texture_view) },
        BindGroupEntry { binding: 1, resource: BindingResource::Buffer(frame_buffer) },
    ]
}

/// An accumulation pairing that reads `read` and writes `write`.
pub open spec fn texture_buffer_entries(read: ResourceId, write: ResourceId) -> Seq<
    BindGroupEntry,
> {
    seq![
        BindGroupEntry { binding: 0, resource: BindingResource::Buffer(read) },
        BindGroupEntry { binding: 1, resource: BindingResource::Buffer(write) },
    ]
}

/// The presentation group over the sampled image and the sampler.
pub open spec fn fragment_entries(texture_view: ResourceId, sampler: ResourceId) -> Seq<
    BindGroupEntry,
> {
    seq![
        BindGroupEntry { binding: 0, resource: BindingResource::TextureView(texture_view) },
        BindGroupEntry { binding: 1, resource: BindingResource::Sampler(sampler) },
    ]
}

impl BindGroupLayout {
    /// The layout of the scene-data family.
    pub fn scene() -> (r: BindGroupLayout)
        ensures
            r@ == scene_layout(),
    {
        let r = BindGroupLayout {
            entries: vec![
                BindGroupLayoutEntry {
                    binding: 0,
                    visibility: ShaderStage::Compute,
                    ty: BindingType::StorageBuffer { read_only: true },
                },
                BindGroupLayoutEntry {
                    binding: 1,
                    visibility: ShaderStage::Compute,
                    ty: BindingType::StorageBuffer { read_only: true },
                },
                BindGroupLayoutEntry {
                    binding: 2,
                    visibility: ShaderStage::Compute,
                    ty: BindingType::StorageBuffer { read_only: true },
                },
            ],
        };
        assert(r@ =~= scene_layout());
        r
    }

    /// The layout of the camera family.
    pub fn camera() -> (r: BindGroupLayout)
        ensures
            r@ == camera_layout(),
    {
        let r = BindGroupLayout {
            entries: vec![
                BindGroupLayoutEntry {
                    binding: 0,
                    visibility: ShaderStage::Compute,
                    ty: BindingType::UniformBuffer,
                },
            ],
        };
        assert(r@ =~= camera_layout());
        r
    }

    /// The layout of the compute-stage family.
    pub fn compute() -> (r: BindGroupLayout)
        ensures
            r@ == compute_layout(),
    {
        let r = BindGroupLayout {
            entries: vec![
                BindGroupLayoutEntry {
                    binding: 0,
                    visibility: ShaderStage::Compute,
                    ty: BindingType::StorageTexture,
                },
                BindGroupLayoutEntry {
                    binding: 1,
                    visibility: ShaderStage::Compute,
                    ty: BindingType::UniformBuffer,
                },
            ],
        };
        assert(r@ =~= compute_layout());
        r
    }

    /// The layout of the accumulation pairings.
    pub fn texture_buffer() -> (r: BindGroupLayout)
        ensures
            r@ == texture_buffer_layout(),
    {
        let r = BindGroupLayout {
            entries: vec![
                BindGroupLayoutEntry {
                    binding: 0,
                    visibility: ShaderStage::Compute,
                    ty: BindingType::StorageBuffer { read_only: true },
                },
                BindGroupLayoutEntry {
                    binding: 1,
                    visibility: ShaderStage::Compute,
                    ty: BindingType::StorageBuffer { read_only: false },
                },
            ],
        };
        assert(r@ =~= texture_buffer_layout());
        r
    }

    /// The layout of the presentation family.
    pub fn fragment() -> (r: BindGroupLayout)
        ensures
            r@ == fragment_layout(),
    {
        let r = BindGroupLayout {
            entries: vec![
                BindGroupLayoutEntry {
                    binding: 0,
                    visibility: ShaderStage::Fragment,
                    ty: BindingType::SampledTexture,
                },
                BindGroupLayoutEntry {
                    binding: 1,
                    visibility: ShaderStage::Fragment,
                    ty: BindingType::Sampler,
                },
            ],
        };
        assert(r@ =~= fragment_layout());
        r
    }
}

impl BindGroup {
    /// The scene-data group over the three scene buffers.
    pub fn scene(vertex_buffer: ResourceId, tri_buffer: ResourceId, material_buffer: ResourceId)
        -> (r: BindGroup)
        ensures
            r@ == scene_entries(vertex_buffer, tri_buffer, material_buffer),
    {
        let r = BindGroup {
            entries: vec![
                BindGroupEntry { binding: 0, resource: BindingResource::Buffer(vertex_buffer) },
                BindGroupEntry { binding: 1, resource: BindingResource::Buffer(tri_buffer) },
                BindGroupEntry { binding: 2, resource: BindingResource::Buffer(material_buffer) },
            ],
        };
        assert(r@ =~= scene_entries(vertex_buffer, tri_buffer, material_buffer));
        r
    }

    /// The camera group over the camera uniform buffer.
    pub fn camera(camera_buffer: ResourceId) -> (r: BindGroup)
        ensures
            r@ == camera_entries(camera_buffer),
    {
        let r = BindGroup {
            entries: vec![
                BindGroupEntry { binding: 0, resource: BindingResource::Buffer(camera_buffer) },
            ],
        };
        assert(r@ =~= camera_entries(camera_buffer));
        r
    }

    /// The compute-stage group over the output image and the per-frame
    /// buffer.
    pub fn compute(texture_view: ResourceId, frame_buffer: ResourceId) -> (r: BindGroup)
        ensures
            r@ == compute_entries(texture_view, frame_buffer),
    {
        let r = BindGroup {
            entries: vec![
                BindGroupEntry { binding: 0, resource: BindingResource::TextureView(texture_view) },
                BindGroupEntry { binding: 1, resource: BindingResource::Buffer(frame_buffer) },
            ],
        };
        assert(r@ =~= compute_entries(texture_view, frame_buffer));
        r
    }

    /// An accumulation pairing that reads `read` and writes `write`.
    pub fn texture_buffer(read: ResourceId, write: ResourceId) -> (r: BindGroup)
        ensures
            r@ == texture_buffer_entries(read, write),
    {
        let r = BindGroup {
            entries: vec![
                BindGroupEntry { binding: 0, resource: BindingResource::Buffer(read) },
                BindGroupEntry { binding: 1, resource: BindingResource::Buffer(write) },
            ],
        };
        assert(r@ =~= texture_buffer_entries(read, write));
        r
    }

    /// The presentation group over the sampled image and the sampler.
    pub fn fragment(texture_view: ResourceId, sampler: ResourceId) -> (r: BindGroup)
        ensures
            r@ == fragment_entries(texture_view, sampler),
    {
        let r = BindGroup {
            entries: vec![
                BindGroupEntry { binding: 0, resource: BindingResource::TextureView(texture_view) },
                BindGroupEntry { binding: 1, resource: BindingResource::Sampler(sampler) },
            ],
        };
        assert(r@ =~= fragment_entries(texture_view, sampler));
        r
    }
}

/// The allocations that the registry's groups are built over.
#[derive(Clone, Copy, PartialEq, Eq, Debug, Structural)]
pub struct BoundResources {
    pub sampler: ResourceId,
    pub vertex_buffer: ResourceId,
    pub tri_buffer: ResourceId,
    pub material_buffer: ResourceId,
    pub camera_buffer: ResourceId,
    pub frame_buffer: ResourceId,
    pub texture_buffer_a: ResourceId,
    pub texture_buffer_b: ResourceId,
    pub texture_view: ResourceId,
}

impl BoundResources {
    /// No two of the nine allocations are the same.
    pub open spec fn distinct(self) -> bool {
        &&& self.sampler != self.vertex_buffer
        &&& self.sampler != self.tri_buffer
        &&& self.sampler != self.material_buffer
        &&& self.sampler != self.camera_buffer
        &&& self.sampler != self.frame_buffer
        &&& self.sampler != self.texture_buffer_a
        &&& self.sampler != self.texture_buffer_b
        &&& self.sampler != self.texture_view
        &&& self.vertex_buffer != self.tri_buffer
        &&& self.vertex_buffer != self.material_buffer
        &&& self.vertex_buffer != self.camera_buffer
        &&& self.vertex_buffer != self.frame_buffer
        &&& self.vertex_buffer != self.texture_buffer_a
        &&& self.vertex_buffer != self.texture_buffer_b
        &&& self.vertex_buffer != self.texture_view
        &&& self.tri_buffer != self.material_buffer
        &&& self.tri_buffer != self.camera_buffer
        &&& self.tri_buffer != self.frame_buffer
        &&& self.tri_buffer != self.texture_buffer_a
        &&& self.tri_buffer != self.texture_buffer_b
        &&& self.tri_buffer != self.texture_view
        &&& self.material_buffer != self.camera_buffer
        &&& self.material_buffer != self.frame_buffer
        &&& self.material_buffer != self.texture_buffer_a
        &&& self.material_buffer != self.texture_buffer_b
        &&& self.material_buffer != self.texture_view
        &&& self.camera_buffer != self.frame_buffer
        &&& self.camera_buffer != self.texture_buffer_a
        &&& self.camera_buffer != self.texture_buffer_b
        &&& self.camera_buffer != self.texture_view
        &&& self.frame_buffer != self.texture_buffer_a
        &&& self.frame_buffer != self.texture_buffer_b
        &&& self.frame_buffer != self.texture_view
        &&& self.texture_buffer_a != self.texture_buffer_b
        &&& self.texture_buffer_a != self.texture_view
        &&& self.texture_buffer_b != self.texture_view
    }
}

/// A family of resources whose replacement makes bindings stale.
#[derive(Clone, Copy, PartialEq, Eq, Debug, Structural)]
pub enum ResourceFamily {
    /// Vertex, triangle and material buffers.
    SceneData,
    /// The camera uniform buffer.
    CameraUniform,
    /// The per-frame uniform buffer.
    FrameUniform,
    /// The image the compute stage writes.
    ComputeOutput,
    /// The two accumulation buffers.
    Accumulation,
    /// The image and sampler the raster stage reads.
    Presentation,
}

/// Whether `a` and `b` name the same allocations for `family`.
pub open spec fn family_unchanged(family: ResourceFamily, a: BoundResources, b: BoundResources)
    -> bool {
    match family {
        ResourceFamily::SceneData => a.vertex_buffer == b.vertex_buffer && a.tri_buffer
            == b.tri_buffer && a.material_buffer == b.material_buffer,
        ResourceFamily::CameraUniform => a.camera_buffer == b.camera_buffer,
        ResourceFamily::FrameUniform => a.frame_buffer == b.frame_buffer,
        ResourceFamily::ComputeOutput => a.texture_view == b.texture_view,
        ResourceFamily::Accumulation => a.texture_buffer_a == b.texture_buffer_a
            && a.texture_buffer_b == b.texture_buffer_b,
        ResourceFamily::Presentation => a.texture_view == b.texture_view && a.sampler
            == b.sampler,
    }
}

/// A set of resource families, raised by whatever replaces allocations.
#[derive(Clone, Copy, PartialEq, Eq, Debug, Structural)]
pub struct Invalidation {
    pub scene_data: bool,
    pub camera_uniform: bool,
    pub frame_uniform: bool,
    pub compute_output: bool,
    pub accumulation: bool,
    pub presentation: bool,
}

impl Invalidation {
    /// Whether `family` is in the set.
    pub open spec fn spec_contains(self, family: ResourceFamily) -> bool {
        match family {
            ResourceFamily::SceneData => self.scene_data,
            ResourceFamily::CameraUniform => self.camera_uniform,
            ResourceFamily::FrameUniform => self.frame_uniform,
            ResourceFamily::ComputeOutput => self.compute_output,
            ResourceFamily::Accumulation => self.accumulation,
            ResourceFamily::Presentation => self.presentation,
        }
    }

    /// Whether the set names every family in which `a` and `b` differ.
    pub open spec fn covers(self, a: BoundResources, b: BoundResources) -> bool {
        &&& self.scene_data || family_unchanged(ResourceFamily::SceneData, a, b)
        &&& self.camera_uniform || family_unchanged(ResourceFamily::CameraUniform, a, b)
        &&& self.frame_uniform || family_unchanged(ResourceFamily::FrameUniform, a, b)
        &&& self.compute_output || family_unchanged(ResourceFamily::ComputeOutput, a, b)
        &&& self.accumulation || family_unchanged(ResourceFamily::Accumulation, a, b)
        &&& self.presentation || family_unchanged(ResourceFamily::Presentation, a, b)
    }

    /// The empty set.
    pub open spec fn spec_none() -> Invalidation {
        Invalidation {
            scene_data: false,
            camera_uniform: false,
            frame_uniform: false,
            compute_output: false,
            accumulation: false,
            presentation: false,
        }
    }

    /// The set that holds `family` alone.
    pub open spec fn spec_only(family: ResourceFamily) -> Invalidation {
        match family {
            ResourceFamily::SceneData => Invalidation {
                scene_data: true,
                ..Invalidation::spec_none()
            },
            ResourceFamily::CameraUniform => Invalidation {
                camera_uniform: true,
                ..Invalidation::spec_none()
            },
            ResourceFamily::FrameUniform => Invalidation {
                frame_uniform: true,
                ..Invalidation::spec_none()
            },
            ResourceFamily::ComputeOutput => Invalidation {
                compute_output: true,
                ..Invalidation::spec_none()
            },
            ResourceFamily::Accumulation => Invalidation {
                accumulation: true,
                ..Invalidation::spec_none()
            },
            ResourceFamily::Presentation => Invalidation {
                presentation: true,
                ..Invalidation::spec_none()
            },
        }
    }

    /// The families that depend on the output resolution: the image the
    /// compute stage writes, the accumulation buffers, and what the raster
    /// stage reads.
    pub open spec fn spec_resolution() -> Invalidation {
        Invalidation {
            scene_data: false,
            camera_uniform: false,
            frame_uniform: false,
            compute_output: true,
            accumulation: true,
            presentation: true,
        }
    }

    /// The empty set.
    #[verifier::when_used_as_spec(spec_none)]
    pub fn none() -> (r: Invalidation)
        ensures
            r == Invalidation::spec_none(),
    {
        Invalidation {
            scene_data: false,
            camera_uniform: false,
            frame_uniform: false,
            compute_output: false,
            accumulation: false,
            presentation: false,
        }
    }

    /// The set that holds `family` alone.
    #[verifier::when_used_as_spec(spec_only)]
    pub fn only(family: ResourceFamily) -> (r: Invalidation)
        ensures
            r == Invalidation::spec_only(family),
    {
        let empty = Invalidation::none();
        match family {
            ResourceFamily::SceneData => Invalidation { scene_data: true, ..empty },
            ResourceFamily::CameraUniform => Invalidation { camera_uniform: true, ..empty },
            ResourceFamily::FrameUniform => Invalidation { frame_uniform: true, ..empty },
            ResourceFamily::ComputeOutput => Invalidation { compute_output: true, ..empty },
            ResourceFamily::Accumulation => Invalidation { accumulation: true, ..empty },
            ResourceFamily::Presentation => Invalidation { presentation: true, ..empty },
        }
    }

    /// The families that depend on the output resolution.
    #[verifier::when_used_as_spec(spec_resolution)]
    pub fn resolution() -> (r: Invalidation)
        ensures
            r == Invalidation::spec_resolution(),
    {
        Invalidation {
            scene_data: false,
            camera_uniform: false,
            frame_uniform: false,
            compute_output: true,
            accumulation: true,
            presentation: true,
        }
    }

    #[verifier::when_used_as_spec(spec_contains)]
    pub fn contains(self, family: ResourceFamily) -> (r: bool)
        ensures
            r == self.spec_contains(family),
    {
        match family {
            ResourceFamily::SceneData => self.scene_data,
            ResourceFamily::CameraUniform => self.camera_uniform,
            ResourceFamily::FrameUniform => self.frame_uniform,
            ResourceFamily::ComputeOutput => self.compute_output,
            ResourceFamily::Accumulation => self.accumulation,
            ResourceFamily::Presentation => self.presentation,
        }
    }

    /// Whether no family is in the set.
    pub fn is_empty(self) -> (r: bool)
        ensures
            r == (forall|family: ResourceFamily| !self.spec_contains(family)),
    {
        let r = !self.scene_data && !self.camera_uniform && !self.frame_uniform
            && !self.compute_output && !self.accumulation && !self.presentation;
        proof {
            if !r {
                assert(self.spec_contains(ResourceFamily::SceneData) || self.spec_contains(
                    ResourceFamily::CameraUniform,
                ) || self.spec_contains(ResourceFamily::FrameUniform) || self.spec_contains(
                    ResourceFamily::ComputeOutput,
                ) || self.spec_contains(ResourceFamily::Accumulation) || self.spec_contains(
                    ResourceFamily::Presentation,
                ));
            }
        }
        r
    }

    /// The families of either set.
    pub fn union(self, other: Invalidation) -> (r: Invalidation)
        ensures
            forall|family: ResourceFamily|
                r.spec_contains(family) == (self.spec_contains(family) || other.spec_contains(
                    family,
                )),
    {
        Invalidation {
            scene_data: self.scene_data || other.scene_data,
            camera_uniform: self.camera_uniform || other.camera_uniform,
            frame_uniform: self.frame_uniform || other.frame_uniform,
            compute_output: self.compute_output || other.compute_output,
            accumulation: self.accumulation || other.accumulation,
            presentation: self.presentation || other.presentation,
        }
    }
}

/// Names one of the registry's six groups.
#[derive(Clone, Copy, PartialEq, Eq, Hash, Debug, Structural)]
pub enum GroupSlot {
    Scene,
    Camera,
    Compute,
    Fragment,
    /// The pairing that reads buffer A and writes buffer B.
    AReadBWrite,
    /// The pairing that reads buffer B and writes buffer A.
    BReadAWrite,
}

/// Layouts and bound groups of every resource family.
#[derive(Clone, Debug)]
pub struct BindGroups {
    pub scene_bind_group_layout: BindGroupLayout,
    pub camera_bind_group_layout: BindGroupLayout,
    pub compute_bind_group_layout: BindGroupLayout,
    pub fragment_bind_group_layout: BindGroupLayout,
    pub texture_buffer_bind_group_layout: BindGroupLayout,
    pub scene_bind_group: BindGroup,
    pub camera_bind_group: BindGroup,
    pub compute_bind_group: BindGroup,
    pub fragment_bind_group: BindGroup,
    pub bind_group_a_read_b_write: BindGroup,
    pub bind_group_b_read_a_write: BindGroup,
}

impl BindGroups {
    /// The five layouts are the fixed ones.
    pub open spec fn layouts_fixed(&self) -> bool {
        &&& self.scene_bind_group_layout@ == scene_layout()
        &&& self.camera_bind_group_layout@ == camera_layout()
        &&& self.compute_bind_group_layout@ == compute_layout()
        &&& self.fragment_bind_group_layout@ == fragment_layout()
        &&& self.texture_buffer_bind_group_layout@ == texture_buffer_layout()
    }

    /// Every group conforms to the layout of its family.
    pub open spec fn groups_conform(&self) -> bool {
        &&& conforms(self.scene_bind_group@, self.scene_bind_group_layout@)
        &&& conforms(self.camera_bind_group@, self.camera_bind_group_layout@)
        &&& conforms(self.compute_bind_group@, self.compute_bind_group_layout@)
        &&& conforms(self.fragment_bind_group@, self.fragment_bind_group_layout@)
        &&& conforms(self.bind_group_a_read_b_write@, self.texture_buffer_bind_group_layout@)
        &&& conforms(self.bind_group_b_read_a_write@, self.texture_buffer_bind_group_layout@)
    }

    /// The registry is internally consistent.
    pub open spec fn wf(&self) -> bool {
        self.layouts_fixed() && self.groups_conform()
    }

    /// The groups that serve `family` are built over the allocations in `res`.
    pub open spec fn family_bound_to(&self, family: ResourceFamily, res: BoundResources) -> bool {
        match family {
            ResourceFamily::SceneData => self.scene_bind_group@ == scene_entries(
                res.vertex_buffer,
                res.tri_buffer,
                res.material_buffer,
            ),
            ResourceFamily::CameraUniform => self.camera_bind_group@ == camera_entries(
                res.camera_buffer,
            ),
            ResourceFamily::FrameUniform => self.compute_bind_group@.len() == 2
                && self.compute_bind_group@[1] == compute_entries(
                res.texture_view,
                res.frame_buffer,
            )[1],
            ResourceFamily::ComputeOutput => self.compute_bind_group@.len() == 2
                && self.compute_bind_group@[0] == compute_entries(
                res.texture_view,
                res.frame_buffer,
            )[0],
            ResourceFamily::Accumulation => self.bind_group_a_read_b_write@
                == texture_buffer_entries(res.texture_buffer_a, res.texture_buffer_b)
                && self.bind_group_b_read_a_write@ == texture_buffer_entries(
                res.texture_buffer_b,
                res.texture_buffer_a,
            ),
            ResourceFamily::Presentation => self.fragment_bind_group@ == fragment_entries(
                res.texture_view,
                res.sampler,
            ),
        }
    }

    /// No group is stale: each is built over exactly the allocations in `res`.
    pub open spec fn bound_to(&self, res: BoundResources) -> bool {
        forall|family: ResourceFamily| #[trigger] self.family_bound_to(family, res)
    }

    /// Every allocation a group names, family by family.
    pub open spec fn references(&self, id: ResourceId) -> bool {
        ||| exists|i: int|
            0 <= i < self.scene_bind_group@.len() && (
            #[trigger] self.scene_bind_group@[i]).resource.spec_id() == id
        ||| exists|i: int|
            0 <= i < self.camera_bind_group@.len() && (
            #[trigger] self.camera_bind_group@[i]).resource.spec_id() == id
        ||| exists|i: int|
            0 <= i < self.compute_bind_group@.len() && (
            #[trigger] self.compute_bind_group@[i]).resource.spec_id() == id
        ||| exists|i: int|
            0 <= i < self.fragment_bind_group@.len() && (
            #[trigger] self.fragment_bind_group@[i]).resource.spec_id() == id
        ||| exists|i: int|
            0 <= i < self.bind_group_a_read_b_write@.len() && (
            #[trigger] self.bind_group_a_read_b_write@[i]).resource.spec_id() == id
        ||| exists|i: int|
            0 <= i < self.bind_group_b_read_a_write@.len() && (
            #[trigger] self.bind_group_b_read_a_write@[i]).resource.spec_id() == id
    }

    /// The group that `slot` names.
    pub open spec fn spec_group(&self, slot: GroupSlot) -> &BindGroup {
        match slot {
            GroupSlot::Scene => &self.scene_bind_group,
            GroupSlot::Camera => &self.camera_bind_group,
            GroupSlot::Compute => &self.compute_bind_group,
            GroupSlot::Fragment => &self.fragment_bind_group,
            GroupSlot::AReadBWrite => &self.bind_group_a_read_b_write,
            GroupSlot::BReadAWrite => &self.bind_group_b_read_a_write,
        }
    }

    /// The layout that the group named by `slot` is built for.
    pub open spec fn spec_layout(&self, slot: GroupSlot) -> &BindGroupLayout {
        match slot {
            GroupSlot::Scene => &self.scene_bind_group_layout,
            GroupSlot::Camera => &self.camera_bind_group_layout,
            GroupSlot::Compute => &self.compute_bind_group_layout,
            GroupSlot::Fragment => &self.fragment_bind_group_layout,
            GroupSlot::AReadBWrite => &self.texture_buffer_bind_group_layout,
            GroupSlot::BReadAWrite => &self.texture_buffer_bind_group_layout,
        }
    }

    #[verifier::when_used_as_spec(spec_group)]
    pub fn group(&self, slot: GroupSlot) -> (r: &BindGroup)
        ensures
            r == self.spec_group(slot),
    {
        match slot {
            GroupSlot::Scene => &self.scene_bind_group,
            GroupSlot::Camera => &self.camera_bind_group,
            GroupSlot::Compute => &self.compute_bind_group,
            GroupSlot::Fragment => &self.fragment_bind_group,
            GroupSlot::AReadBWrite => &self.bind_group_a_read_b_write,
            GroupSlot::BReadAWrite => &self.bind_group_b_read_a_write,
        }
    }

    #[verifier::when_used_as_spec(spec_layout)]
    pub fn layout(&self, slot: GroupSlot) -> (r: &BindGroupLayout)
        ensures
            r == self.spec_layout(slot),
    {
        match slot {
            GroupSlot::Scene => &self.scene_bind_group_layout,
            GroupSlot::Camera => &self.camera_bind_group_layout,
            GroupSlot::Compute => &self.compute_bind_group_layout,
            GroupSlot::Fragment => &self.fragment_bind_group_layout,
            GroupSlot::AReadBWrite => &self.texture_buffer_bind_group_layout,
            GroupSlot::BReadAWrite => &self.texture_buffer_bind_group_layout,
        }
    }

    /// Builds the five layouts and, over the given allocations, the six groups.
    pub fn new(
        sampler: ResourceId,
        vertex_buffer: ResourceId,
        tri_buffer: ResourceId,
        material_buffer: ResourceId,
        camera_buffer: ResourceId,
        frame_buffer: ResourceId,
        texture_buffer_a: ResourceId,
        texture_buffer_b: ResourceId,
        texture_view: ResourceId,
    ) -> (r: BindGroups)
        ensures
            r.wf(),
            r.bound_to(
                BoundResources {
                    sampler,
                    vertex_buffer,
                    tri_buffer,
                    material_buffer,
                    camera_buffer,
                    frame_buffer,
                    texture_buffer_a,
                    texture_buffer_b,
                    texture_view,
                },
            ),
    {
        BindGroups {
            scene_bind_group_layout: BindGroupLayout::scene(),
            camera_bind_group_layout: BindGroupLayout::camera(),
            compute_bind_group_layout: BindGroupLayout::compute(),
            fragment_bind_group_layout: BindGroupLayout::fragment(),
            texture_buffer_bind_group_layout: BindGroupLayout::texture_buffer(),
            scene_bind_group: BindGroup::scene(vertex_buffer, tri_buffer, material_buffer),
            camera_bind_group: BindGroup::camera(camera_buffer),
            compute_bind_group: BindGroup::compute(texture_view, frame_buffer),
            fragment_bind_group: BindGroup::fragment(texture_view, sampler),
            bind_group_a_read_b_write: BindGroup::texture_buffer(
                texture_buffer_a,
                texture_buffer_b,
            ),
            bind_group_b_read_a_write: BindGroup::texture_buffer(
                texture_buffer_b,
                texture_buffer_a,
            ),
        }
    }

    /// Replaces the presentation group.
    pub fn rebuild_fragment_bind_group(&mut self, sampler: ResourceId, texture_view: ResourceId)
        ensures
            final(self).fragment_bind_group@ == fragment_entries(texture_view, sampler),
            *final(self) == (BindGroups {
                fragment_bind_group: final(self).fragment_bind_group,
                ..*old(self)
            }),
            old(self).wf() ==> final(self).wf(),
    {
        self.fragment_bind_group = BindGroup::fragment(texture_view, sampler);
    }

    /// Replaces the compute-stage group.
    pub fn rebuild_compute_bind_group(&mut self, frame_buffer: ResourceId, texture_view: ResourceId)
        ensures
            final(self).compute_bind_group@ == compute_entries(texture_view, frame_buffer),
            *final(self) == (BindGroups {
                compute_bind_group: final(self).compute_bind_group,
                ..*old(self)
            }),
            old(self).wf() ==> final(self).wf(),
    {
        self.compute_bind_group = BindGroup::compute(texture_view, frame_buffer);
    }

    /// Replaces both accumulation pairings.
    pub fn rebuild_texture_buffer_bind_groups(
        &mut self,
        texture_buffer_a: ResourceId,
        texture_buffer_b: ResourceId,
    )
        ensures
            final(self).bind_group_a_read_b_write@ == texture_buffer_entries(
                texture_buffer_a,
                texture_buffer_b,
            ),
            final(self).bind_group_b_read_a_write@ == texture_buffer_entries(
                texture_buffer_b,
                texture_buffer_a,
            ),
            *final(self) == (BindGroups {
                bind_group_a_read_b_write: final(self).bind_group_a_read_b_write,
                bind_group_b_read_a_write: final(self).bind_group_b_read_a_write,
                ..*old(self)
            }),
            old(self).wf() ==> final(self).wf(),
    {
        self.bind_group_a_read_b_write = BindGroup::texture_buffer(
            texture_buffer_a,
            texture_buffer_b,
        );
        self.bind_group_b_read_a_write = BindGroup::texture_buffer(
            texture_buffer_b,
            texture_buffer_a,
        );
    }

    /// Replaces the scene-data group.
    pub fn rebuild_scene_bind_group(
        &mut self,
        vertex_buffer: ResourceId,
        tri_buffer: ResourceId,
        material_buffer: ResourceId,
    )
        ensures
            final(self).scene_bind_group@ == scene_entries(
                vertex_buffer,
                tri_buffer,
                material_buffer,
            ),
            *final(self) == (BindGroups {
                scene_bind_group: final(self).scene_bind_group,
                ..*old(self)
            }),
            old(self).wf() ==> final(self).wf(),
    {
        self.scene_bind_group = BindGroup::scene(vertex_buffer, tri_buffer, material_buffer);
    }

    /// Replaces the camera group.
    pub fn rebuild_camera_bind_group(&mut self, camera_buffer: ResourceId)
        ensures
            final(self).camera_bind_group@ == camera_entries(camera_buffer),
            *final(self) == (BindGroups {
                camera_bind_group: final(self).camera_bind_group,
                ..*old(self)
            }),
            old(self).wf() ==> final(self).wf(),
    {
        self.camera_bind_group = BindGroup::camera(camera_buffer);
    }

    /// What [`Self::rebuild`] turns `pre` into: the groups that serve a
    /// family of `marked` are built anew over `res`, the layouts and every
    /// other group are the ones of `pre`.
    pub open spec fn rebuilt_from(
        &self,
        pre: &BindGroups,
        marked: Invalidation,
        res: BoundResources,
    ) -> bool {
        &&& self.scene_bind_group_layout == pre.scene_bind_group_layout
        &&& self.camera_bind_group_layout == pre.camera_bind_group_layout
        &&& self.compute_bind_group_layout == pre.compute_bind_group_layout
        &&& self.fragment_bind_group_layout == pre.fragment_bind_group_layout
        &&& self.texture_buffer_bind_group_layout == pre.texture_buffer_bind_group_layout
        &&& if marked.scene_data {
            self.scene_bind_group@ == scene_entries(
                res.vertex_buffer,
                res.tri_buffer,
                res.material_buffer,
            )
        } else {
            self.scene_bind_group == pre.scene_bind_group
        }
        &&& if marked.camera_uniform {
            self.camera_bind_group@ == camera_entries(res.camera_buffer)
        } else {
            self.camera_bind_group == pre.camera_bind_group
        }
        &&& if marked.frame_uniform || marked.compute_output {
            self.compute_bind_group@ == compute_entries(res.texture_view, res.frame_buffer)
        } else {
            self.compute_bind_group == pre.compute_bind_group
        }
        &&& if marked.accumulation {
            &&& self.bind_group_a_read_b_write@ == texture_buffer_entries(
                res.texture_buffer_a,
                res.texture_buffer_b,
            )
            &&& self.bind_group_b_read_a_write@ == texture_buffer_entries(
                res.texture_buffer_b,
                res.texture_buffer_a,
            )
        } else {
            &&& self.bind_group_a_read_b_write == pre.bind_group_a_read_b_write
            &&& self.bind_group_b_read_a_write == pre.bind_group_b_read_a_write
        }
        &&& if marked.presentation {
            self.fragment_bind_group@ == fragment_entries(res.texture_view, res.sampler)
        } else {
            self.fragment_bind_group == pre.fragment_bind_group
        }
    }

    /// Rebuilds the groups of every family in `marked` over the allocations
    /// in `res`, and leaves the rest of the registry alone.
    pub fn rebuild(&mut self, marked: Invalidation, res: &BoundResources)
        ensures
            final(self).rebuilt_from(old(self), marked, *res),
            old(self).wf() ==> final(self).wf(),
    {
        if marked.scene_data {
            self.rebuild_scene_bind_group(res.vertex_buffer, res.tri_buffer, res.material_buffer);
        }
        if marked.camera_uniform {
            self.rebuild_camera_bind_group(res.camera_buffer);
        }
        if marked.frame_uniform || marked.compute_output {
            self.rebuild_compute_bind_group(res.frame_buffer, res.texture_view);
        }
        if marked.accumulation {
            self.rebuild_texture_buffer_bind_groups(res.texture_buffer_a, res.texture_buffer_b);
        }
        if marked.presentation {
            self.rebuild_fragment_bind_group(res.sampler, res.texture_view);
        }
    }

    /// Rebuilding is idempotent: a second rebuild of the same families over
    /// the same allocations yields groups with the same contents.
    pub proof fn lemma_rebuild_idempotent(
        pre: BindGroups,
        once: BindGroups,
        twice: BindGroups,
        marked: Invalidation,
        res: BoundResources,
    )
        requires
            once.rebuilt_from(&pre, marked, res),
            twice.rebuilt_from(&once, marked, res),
        ensures
            twice.scene_bind_group@ == once.scene_bind_group@,
            twice.camera_bind_group@ == once.camera_bind_group@,
            twice.compute_bind_group@ == once.compute_bind_group@,
            twice.fragment_bind_group@ == once.fragment_bind_group@,
            twice.bind_group_a_read_b_write@ == once.bind_group_a_read_b_write@,
            twice.bind_group_b_read_a_write@ == once.bind_group_b_read_a_write@,
            twice.rebuilt_from(&pre, marked, res),
    {
    }

    /// If no group was stale before some allocations were replaced, and every
    /// family that saw a replacement is marked, then no group is stale after
    /// the rebuild.
    pub proof fn lemma_rebuild_leaves_nothing_stale(
        pre: BindGroups,
        post: BindGroups,
        marked: Invalidation,
        before: BoundResources,
        after: BoundResources,
    )
        requires
            pre.bound_to(before),
            marked.covers(before, after),
            post.rebuilt_from(&pre, marked, after),
        ensures
            post.bound_to(after),
    {
        assert(pre.family_bound_to(ResourceFamily::SceneData, before));
        assert(pre.family_bound_to(ResourceFamily::CameraUniform, before));
        assert(pre.family_bound_to(ResourceFamily::FrameUniform, before));
        assert(pre.family_bound_to(ResourceFamily::ComputeOutput, before));
        assert(pre.family_bound_to(ResourceFamily::Accumulation, before));
        assert(pre.family_bound_to(ResourceFamily::Presentation, before));
        assert forall|family: ResourceFamily| #[trigger]
            post.family_bound_to(family, after) by {
            match family {
                ResourceFamily::SceneData => {},
                ResourceFamily::CameraUniform => {},
                ResourceFamily::FrameUniform => {},
                ResourceFamily::ComputeOutput => {},
                ResourceFamily::Accumulation => {},
                ResourceFamily::Presentation => {},
            }
        }
    }

    /// A registry that is bound to some allocations names nothing else.
    pub proof fn lemma_bound_references(self, res: BoundResources, id: ResourceId)
        requires
            self.bound_to(res),
        ensures
            self.references(id) <==> (id == res.sampler || id == res.vertex_buffer || id
                == res.tri_buffer || id == res.material_buffer || id == res.camera_buffer || id
                == res.frame_buffer || id == res.texture_buffer_a || id == res.texture_buffer_b
                || id == res.texture_view),
    {
        assert(self.family_bound_to(ResourceFamily::SceneData, res));
        assert(self.family_bound_to(ResourceFamily::CameraUniform, res));
        assert(self.family_bound_to(ResourceFamily::FrameUniform, res));
        assert(self.family_bound_to(ResourceFamily::ComputeOutput, res));
        assert(self.family_bound_to(ResourceFamily::Accumulation, res));
        assert(self.family_bound_to(ResourceFamily::Presentation, res));
        let sc = self.scene_bind_group@;
        let ca = self.camera_bind_group@;
        let co = self.compute_bind_group@;
        let fr = self.fragment_bind_group@;
        let ab = self.bind_group_a_read_b_write@;
        let ba = self.bind_group_b_read_a_write@;
        if id == res.vertex_buffer {
            assert(sc[0].resource.spec_id() == id);
        }
        if id == res.tri_buffer {
            assert(sc[1].resource.spec_id() == id);
        }
        if id == res.material_buffer {
            assert(sc[2].resource.spec_id() == id);
        }
        if id == res.camera_buffer {
            assert(ca[0].resource.spec_id() == id);
        }
        if id == res.texture_view {
            assert(co[0].resource.spec_id() == id);
        }
        if id == res.frame_buffer {
            assert(co[1].resource.spec_id() == id);
        }
        if id == res.sampler {
            assert(fr[1].resource.spec_id() == id);
        }
        if id == res.texture_buffer_a {
            assert(ab[0].resource.spec_id() == id);
        }
        if id == res.texture_buffer_b {
            assert(ab[1].resource.spec_id() == id);
        }
    }
}

} // verus!
