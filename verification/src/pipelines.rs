//! The two GPU programs and the group numbering they are built with.

use vstd::prelude::*;
use crate::bind_groups::{BindGroupLayout, BindGroups, GroupSlot};

verus! {

/// Group index of the compute-stage output image and per-frame uniform.
pub const COMPUTE_GROUP: u32 = 0;

/// Group index of the camera uniform.
pub const CAMERA_GROUP: u32 = 1;

/// Group index of the scene data.
pub const SCENE_GROUP: u32 = 2;

/// Group index of the accumulation pairing.
pub const ACCUMULATION_GROUP: u32 = 3;

/// Group index of the image and sampler that the raster program reads.
pub const FRAGMENT_GROUP: u32 = 0;

/// Description of the compute program.
#[derive(Debug)]
pub struct ComputePipeline {
    /// Layouts by group index.
    pub bind_group_layouts: Vec<BindGroupLayout>,
    pub entry_point: &'static str,
}

/// Description of the raster program.
#[derive(Debug)]
pub struct RenderPipeline {
    /// Layouts by group index.
    pub bind_group_layouts: Vec<BindGroupLayout>,
    pub vertex_entry_point: &'static str,
    pub fragment_entry_point: &'static str,
}

/// Both programs.
#[derive(Debug)]
pub struct Pipelines {
    pub render_pipeline: RenderPipeline,
    pub compute_pipeline: ComputePipeline,
}

/// The registry group that goes to each group index of the compute program,
/// with either pairing standing for the last one.
pub open spec fn compute_group_order() -> Seq<GroupSlot> {
    seq![GroupSlot::Compute, GroupSlot::Camera, GroupSlot::Scene, GroupSlot::AReadBWrite]
}

impl Pipelines {
    /// The programs are laid out over the layouts of `bind_groups`, in the
    /// fixed group order.
    pub open spec fn built_for(&self, bind_groups: &BindGroups) -> bool {
        &&& self.compute_pipeline.bind_group_layouts@.len() == 4
        &&& forall|i: int|
            0 <= i < 4 ==> (#[trigger] self.compute_pipeline.bind_group_layouts@[i])@
                == bind_groups.spec_layout(compute_group_order()[i])@
        &&& self.render_pipeline.bind_group_layouts@.len() == 1
        &&& self.render_pipeline.bind_group_layouts@[0]@ == bind_groups.spec_layout(
            GroupSlot::Fragment,
        )@
    }

    /// Describes both programs over the layouts of the registry.
    pub fn new(bind_groups: &BindGroups) -> (r: Pipelines)
        ensures
            r.built_for(bind_groups),
            r.compute_pipeline.entry_point@ == "raytrace"@,
            r.render_pipeline.vertex_entry_point@ == "vs_main"@,
            r.render_pipeline.fragment_entry_point@ == "fs_main"@,
    {
        let mut compute_layouts: Vec<BindGroupLayout> = Vec::new();
        compute_layouts.push(bind_groups.compute_bind_group_layout.duplicate());
        compute_layouts.push(bind_groups.camera_bind_group_layout.duplicate());
        compute_layouts.push(bind_groups.scene_bind_group_layout.duplicate());
        compute_layouts.push(bind_groups.texture_buffer_bind_group_layout.duplicate());
        let compute_pipeline = ComputePipeline {
            bind_group_layouts: compute_layouts,
            entry_point: "raytrace",
        };
        let mut render_layouts: Vec<BindGroupLayout> = Vec::new();
        render_layouts.push(bind_groups.fragment_bind_group_layout.duplicate());
        let render_pipeline = RenderPipeline {
            bind_group_layouts: render_layouts,
            vertex_entry_point: "vs_main",
            fragment_entry_point: "fs_main",
        };
        Pipelines { render_pipeline, compute_pipeline }
    }
}

} // verus!
