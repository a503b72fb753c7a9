use frame_pipeline::bind_groups::{
    check_conformance, BindGroup, BindGroupEntry, BindGroupLayoutEntry, BindGroups, BindingResource,
    BindingType, BoundResources, GroupSlot, Invalidation, ResourceFamily, ShaderStage,
};
use frame_pipeline::pipelines::{
    Pipelines, ACCUMULATION_GROUP, CAMERA_GROUP, COMPUTE_GROUP, FRAGMENT_GROUP, SCENE_GROUP,
};
use frame_pipeline::resource::ResourceId;

fn resources(base: u64) -> BoundResources {
    BoundResources {
        sampler: ResourceId(base),
        vertex_buffer: ResourceId(base + 1),
        tri_buffer: ResourceId(base + 2),
        material_buffer: ResourceId(base + 3),
        camera_buffer: ResourceId(base + 4),
        frame_buffer: ResourceId(base + 5),
        texture_buffer_a: ResourceId(base + 6),
        texture_buffer_b: ResourceId(base + 7),
        texture_view: ResourceId(base + 8),
    }
}

fn registry(res: &BoundResources) -> BindGroups {
    BindGroups::new(
        res.sampler,
        res.vertex_buffer,
        res.tri_buffer,
        res.material_buffer,
        res.camera_buffer,
        res.frame_buffer,
        res.texture_buffer_a,
        res.texture_buffer_b,
        res.texture_view,
    )
}

fn buffer(binding: u32, id: u64) -> BindGroupEntry {
    BindGroupEntry { binding, resource: BindingResource::Buffer(ResourceId(id)) }
}

fn storage(binding: u32, read_only: bool) -> BindGroupLayoutEntry {
    BindGroupLayoutEntry {
        binding,
        visibility: ShaderStage::Compute,
        ty: BindingType::StorageBuffer { read_only },
    }
}

#[test]
fn new_registry_has_the_fixed_layouts() {
    let g = registry(&resources(10));
    assert_eq!(
        g.scene_bind_group_layout.entries,
        vec![storage(0, true), storage(1, true), storage(2, true)]
    );
    assert_eq!(
        g.camera_bind_group_layout.entries,
        vec![BindGroupLayoutEntry {
            binding: 0,
            visibility: ShaderStage::Compute,
            ty: BindingType::UniformBuffer,
        }]
    );
    assert_eq!(
        g.compute_bind_group_layout.entries,
        vec![
            BindGroupLayoutEntry {
                binding: 0,
                visibility: ShaderStage::Compute,
                ty: BindingType::StorageTexture,
            },
            BindGroupLayoutEntry {
                binding: 1,
                visibility: ShaderStage::Compute,
                ty: BindingType::UniformBuffer,
            },
        ]
    );
    assert_eq!(g.texture_buffer_bind_group_layout.entries, vec![storage(0, true), storage(1, false)]);
    assert_eq!(
        g.fragment_bind_group_layout.entries,
        vec![
            BindGroupLayoutEntry {
                binding: 0,
                visibility: ShaderStage::Fragment,
                ty: BindingType::SampledTexture,
            },
            BindGroupLayoutEntry {
                binding: 1,
                visibility: ShaderStage::Fragment,
                ty: BindingType::Sampler,
            },
        ]
    );
}

#[test]
fn new_registry_binds_the_given_allocations() {
    let g = registry(&resources(10));
    assert_eq!(g.scene_bind_group.entries, vec![buffer(0, 11), buffer(1, 12), buffer(2, 13)]);
    assert_eq!(g.camera_bind_group.entries, vec![buffer(0, 14)]);
    assert_eq!(
        g.compute_bind_group.entries,
        vec![
            BindGroupEntry { binding: 0, resource: BindingResource::TextureView(ResourceId(18)) },
            buffer(1, 15),
        ]
    );
    assert_eq!(g.bind_group_a_read_b_write.entries, vec![buffer(0, 16), buffer(1, 17)]);
    assert_eq!(g.bind_group_b_read_a_write.entries, vec![buffer(0, 17), buffer(1, 16)]);
    assert_eq!(
        g.fragment_bind_group.entries,
        vec![
            BindGroupEntry { binding: 0, resource: BindingResource::TextureView(ResourceId(18)) },
            BindGroupEntry { binding: 1, resource: BindingResource::Sampler(ResourceId(10)) },
        ]
    );
}

#[test]
fn every_group_conforms_to_its_layout() {
    let g = registry(&resources(0));
    for slot in [
        GroupSlot::Scene,
        GroupSlot::Camera,
        GroupSlot::Compute,
        GroupSlot::Fragment,
        GroupSlot::AReadBWrite,
        GroupSlot::BReadAWrite,
    ] {
        assert!(check_conformance(g.group(slot), g.layout(slot)));
    }
    assert!(!check_conformance(g.group(GroupSlot::Scene), g.layout(GroupSlot::Camera)));
    assert!(!check_conformance(g.group(GroupSlot::Fragment), g.layout(GroupSlot::Compute)));
    assert!(!check_conformance(g.group(GroupSlot::Compute), g.layout(GroupSlot::AReadBWrite)));
}

#[test]
fn conformance_rejects_a_wrong_slot_number_or_kind() {
    let g = registry(&resources(0));
    let layout = g.layout(GroupSlot::AReadBWrite);
    let shifted = BindGroup { entries: vec![buffer(0, 1), buffer(2, 2)] };
    assert!(!check_conformance(&shifted, layout));
    let sampler = BindGroup {
        entries: vec![
            buffer(0, 1),
            BindGroupEntry { binding: 1, resource: BindingResource::Sampler(ResourceId(2)) },
        ],
    };
    assert!(!check_conformance(&sampler, layout));
    let short = BindGroup { entries: vec![buffer(0, 1)] };
    assert!(!check_conformance(&short, layout));
    let fine = BindGroup { entries: vec![buffer(0, 9), buffer(1, 9)] };
    assert!(check_conformance(&fine, layout));
}

#[test]
fn resource_kinds_fit_their_binding_types() {
    let id = ResourceId(1);
    assert!(BindingResource::Buffer(id).fits(BindingType::UniformBuffer));
    assert!(BindingResource::Buffer(id).fits(BindingType::StorageBuffer { read_only: false }));
    assert!(!BindingResource::Buffer(id).fits(BindingType::Sampler));
    assert!(!BindingResource::Buffer(id).fits(BindingType::StorageTexture));
    assert!(BindingResource::TextureView(id).fits(BindingType::StorageTexture));
    assert!(BindingResource::TextureView(id).fits(BindingType::SampledTexture));
    assert!(!BindingResource::TextureView(id).fits(BindingType::UniformBuffer));
    assert!(BindingResource::Sampler(id).fits(BindingType::Sampler));
    assert!(!BindingResource::Sampler(id).fits(BindingType::SampledTexture));
    assert_eq!(BindingResource::Sampler(ResourceId(7)).id(), ResourceId(7));
    assert_eq!(BindingResource::Buffer(ResourceId(8)).id(), ResourceId(8));
    assert_eq!(BindingResource::TextureView(ResourceId(9)).id(), ResourceId(9));
}

#[test]
fn each_rebuild_replaces_its_own_groups_only() {
    let mut g = registry(&resources(0));
    let before = g.clone();

    g.rebuild_scene_bind_group(ResourceId(21), ResourceId(22), ResourceId(23));
    assert_eq!(g.scene_bind_group.entries, vec![buffer(0, 21), buffer(1, 22), buffer(2, 23)]);
    assert_eq!(g.camera_bind_group.entries, before.camera_bind_group.entries);
    assert_eq!(g.compute_bind_group.entries, before.compute_bind_group.entries);

    g.rebuild_camera_bind_group(ResourceId(24));
    assert_eq!(g.camera_bind_group.entries, vec![buffer(0, 24)]);

    g.rebuild_compute_bind_group(ResourceId(25), ResourceId(28));
    assert_eq!(
        g.compute_bind_group.entries,
        vec![
            BindGroupEntry { binding: 0, resource: BindingResource::TextureView(ResourceId(28)) },
            buffer(1, 25),
        ]
    );
    assert_eq!(g.fragment_bind_group.entries, before.fragment_bind_group.entries);

    g.rebuild_texture_buffer_bind_groups(ResourceId(26), ResourceId(27));
    assert_eq!(g.bind_group_a_read_b_write.entries, vec![buffer(0, 26), buffer(1, 27)]);
    assert_eq!(g.bind_group_b_read_a_write.entries, vec![buffer(0, 27), buffer(1, 26)]);

    g.rebuild_fragment_bind_group(ResourceId(20), ResourceId(28));
    assert_eq!(
        g.fragment_bind_group.entries,
        vec![
            BindGroupEntry { binding: 0, resource: BindingResource::TextureView(ResourceId(28)) },
            BindGroupEntry { binding: 1, resource: BindingResource::Sampler(ResourceId(20)) },
        ]
    );

    assert_eq!(g.scene_bind_group_layout.entries, before.scene_bind_group_layout.entries);
    assert_eq!(g.fragment_bind_group_layout.entries, before.fragment_bind_group_layout.entries);
    let again = registry(&resources(20));
    assert_eq!(g.scene_bind_group.entries, again.scene_bind_group.entries);
    assert_eq!(g.camera_bind_group.entries, again.camera_bind_group.entries);
    assert_eq!(g.compute_bind_group.entries, again.compute_bind_group.entries);
    assert_eq!(g.fragment_bind_group.entries, again.fragment_bind_group.entries);
    assert_eq!(g.bind_group_a_read_b_write.entries, again.bind_group_a_read_b_write.entries);
    assert_eq!(g.bind_group_b_read_a_write.entries, again.bind_group_b_read_a_write.entries);
}

#[test]
fn rebuild_by_family_closes_every_stale_binding() {
    let old = resources(0);
    let mut new = old;
    new.camera_buffer = ResourceId(100);
    let mut g = registry(&old);
    g.rebuild(Invalidation::only(ResourceFamily::CameraUniform), &new);
    let fresh = registry(&new);
    assert_eq!(g.camera_bind_group.entries, vec![buffer(0, 100)]);
    assert_eq!(g.camera_bind_group.entries, fresh.camera_bind_group.entries);
    assert_eq!(g.scene_bind_group.entries, fresh.scene_bind_group.entries);
    assert_eq!(g.compute_bind_group.entries, fresh.compute_bind_group.entries);
    assert_eq!(g.fragment_bind_group.entries, fresh.fragment_bind_group.entries);
    assert_eq!(g.bind_group_a_read_b_write.entries, fresh.bind_group_a_read_b_write.entries);
    assert_eq!(g.bind_group_b_read_a_write.entries, fresh.bind_group_b_read_a_write.entries);
}

#[test]
fn rebuild_of_the_resolution_families_follows_new_textures() {
    let old = resources(0);
    let mut new = old;
    new.texture_buffer_a = ResourceId(50);
    new.texture_buffer_b = ResourceId(51);
    new.texture_view = ResourceId(52);
    let mut g = registry(&old);
    g.rebuild(Invalidation::resolution(), &new);
    let fresh = registry(&new);
    assert_eq!(g.compute_bind_group.entries, fresh.compute_bind_group.entries);
    assert_eq!(g.fragment_bind_group.entries, fresh.fragment_bind_group.entries);
    assert_eq!(g.bind_group_a_read_b_write.entries, fresh.bind_group_a_read_b_write.entries);
    assert_eq!(g.bind_group_b_read_a_write.entries, fresh.bind_group_b_read_a_write.entries);
    assert_eq!(g.scene_bind_group.entries, fresh.scene_bind_group.entries);
}

#[test]
fn rebuild_is_idempotent() {
    let new = resources(30);
    let mut once = registry(&resources(0));
    once.rebuild(Invalidation::resolution(), &new);
    let mut twice = once.clone();
    twice.rebuild(Invalidation::resolution(), &new);
    assert_eq!(once.compute_bind_group.entries, twice.compute_bind_group.entries);
    assert_eq!(once.fragment_bind_group.entries, twice.fragment_bind_group.entries);
    assert_eq!(once.bind_group_a_read_b_write.entries, twice.bind_group_a_read_b_write.entries);
    assert_eq!(once.scene_bind_group.entries, twice.scene_bind_group.entries);
}

#[test]
fn rebuild_of_nothing_changes_nothing() {
    let mut g = registry(&resources(0));
    g.rebuild(Invalidation::none(), &resources(40));
    let same = registry(&resources(0));
    assert_eq!(g.scene_bind_group.entries, same.scene_bind_group.entries);
    assert_eq!(g.camera_bind_group.entries, same.camera_bind_group.entries);
    assert_eq!(g.compute_bind_group.entries, same.compute_bind_group.entries);
    assert_eq!(g.fragment_bind_group.entries, same.fragment_bind_group.entries);
}

#[test]
fn frame_uniform_family_rebuilds_the_compute_group() {
    let mut new = resources(0);
    new.frame_buffer = ResourceId(77);
    let mut g = registry(&resources(0));
    g.rebuild(Invalidation::only(ResourceFamily::FrameUniform), &new);
    assert_eq!(
        g.compute_bind_group.entries,
        vec![
            BindGroupEntry { binding: 0, resource: BindingResource::TextureView(ResourceId(8)) },
            buffer(1, 77),
        ]
    );
}

#[test]
fn invalidation_sets() {
    let families = [
        ResourceFamily::SceneData,
        ResourceFamily::CameraUniform,
        ResourceFamily::FrameUniform,
        ResourceFamily::ComputeOutput,
        ResourceFamily::Accumulation,
        ResourceFamily::Presentation,
    ];
    assert!(Invalidation::none().is_empty());
    for f in families {
        assert!(!Invalidation::none().contains(f));
        let one = Invalidation::only(f);
        assert!(!one.is_empty());
        for g in families {
            assert_eq!(one.contains(g), f == g);
        }
    }
    let r = Invalidation::resolution();
    assert!(r.contains(ResourceFamily::ComputeOutput));
    assert!(r.contains(ResourceFamily::Accumulation));
    assert!(r.contains(ResourceFamily::Presentation));
    assert!(!r.contains(ResourceFamily::SceneData));
    assert!(!r.contains(ResourceFamily::CameraUniform));
    assert!(!r.contains(ResourceFamily::FrameUniform));
    let u = r.union(Invalidation::only(ResourceFamily::SceneData));
    assert!(u.contains(ResourceFamily::SceneData));
    assert!(u.contains(ResourceFamily::Presentation));
    assert!(!u.contains(ResourceFamily::CameraUniform));
    assert_eq!(Invalidation::none().union(Invalidation::none()), Invalidation::none());
}

#[test]
fn pipelines_take_the_layouts_in_group_order() {
    let g = registry(&resources(0));
    let p = Pipelines::new(&g);
    assert_eq!(p.compute_pipeline.entry_point, "raytrace");
    assert_eq!(p.render_pipeline.vertex_entry_point, "vs_main");
    assert_eq!(p.render_pipeline.fragment_entry_point, "fs_main");
    let c = &p.compute_pipeline.bind_group_layouts;
    assert_eq!(c.len(), 4);
    assert_eq!(c[COMPUTE_GROUP as usize].entries, g.compute_bind_group_layout.entries);
    assert_eq!(c[CAMERA_GROUP as usize].entries, g.camera_bind_group_layout.entries);
    assert_eq!(c[SCENE_GROUP as usize].entries, g.scene_bind_group_layout.entries);
    assert_eq!(c[ACCUMULATION_GROUP as usize].entries, g.texture_buffer_bind_group_layout.entries);
    let r = &p.render_pipeline.bind_group_layouts;
    assert_eq!(r.len(), 1);
    assert_eq!(r[FRAGMENT_GROUP as usize].entries, g.fragment_bind_group_layout.entries);
    assert_eq!((COMPUTE_GROUP, CAMERA_GROUP, SCENE_GROUP, ACCUMULATION_GROUP), (0, 1, 2, 3));
}

#[test]
fn duplicate_layout_has_the_same_slots() {
    let g = registry(&resources(0));
    assert_eq!(g.scene_bind_group_layout.duplicate().entries, g.scene_bind_group_layout.entries);
}
