use frame_pipeline::bind_groups::{
    check_conformance, BindGroupEntry, BindingResource, GroupSlot, Invalidation, ResourceFamily,
};
use frame_pipeline::camera::{PhysicalCamera, Position, INITIAL_YAW};
use frame_pipeline::input::dispatcher::{ActionDispatcher, Movement};
use frame_pipeline::input::handler::{
    ElementState, InputEvent, InputFlags, KEY_C, KEY_ESCAPE, KEY_F11, KEY_S, KEY_T, KEY_W,
};
use frame_pipeline::resource::{PhysicalSize, ResourceId};
use frame_pipeline::scene::SceneError;
use frame_pipeline::state::{
    ComputePass, EventResponse, FrameCommands, RenderPass, State, SurfaceError, WindowEvent,
};

const STEP: u64 = 8_333_334;
const SIZE: PhysicalSize = PhysicalSize { width: 800, height: 600 };

fn state() -> State {
    State::new(SIZE, STEP).unwrap()
}

fn press(s: &mut State, key: u32) {
    s.process_input(&InputEvent::KeyboardInput { key, state: ElementState::Pressed, repeat: false });
}

fn release(s: &mut State, key: u32) {
    s.process_input(&InputEvent::KeyboardInput { key, state: ElementState::Released, repeat: false });
}

fn since_moved(s: &State) -> u32 {
    s.surface_state().frame_info.frame_uniform.global_frame_info[1]
}

fn frame(s: &State) -> u32 {
    s.surface_state().frame_info.frame_uniform.global_frame_info[0]
}

fn bound_ids(s: &State) -> Vec<ResourceId> {
    let mut ids = Vec::new();
    for slot in [
        GroupSlot::Scene,
        GroupSlot::Camera,
        GroupSlot::Compute,
        GroupSlot::Fragment,
        GroupSlot::AReadBWrite,
        GroupSlot::BReadAWrite,
    ] {
        for e in &s.bind_groups().group(slot).entries {
            ids.push(e.resource.id());
        }
    }
    ids
}

fn assert_nothing_stale(s: &State) {
    let res = s.bound_resources();
    let g = s.bind_groups();
    let buffer = |binding: u32, id: ResourceId| BindGroupEntry {
        binding,
        resource: BindingResource::Buffer(id),
    };
    assert_eq!(
        g.scene_bind_group.entries,
        vec![buffer(0, res.vertex_buffer), buffer(1, res.tri_buffer), buffer(2, res.material_buffer)]
    );
    assert_eq!(g.camera_bind_group.entries, vec![buffer(0, res.camera_buffer)]);
    assert_eq!(
        g.compute_bind_group.entries,
        vec![
            BindGroupEntry { binding: 0, resource: BindingResource::TextureView(res.texture_view) },
            buffer(1, res.frame_buffer),
        ]
    );
    assert_eq!(
        g.bind_group_a_read_b_write.entries,
        vec![buffer(0, res.texture_buffer_a), buffer(1, res.texture_buffer_b)]
    );
    assert_eq!(
        g.bind_group_b_read_a_write.entries,
        vec![buffer(0, res.texture_buffer_b), buffer(1, res.texture_buffer_a)]
    );
    assert_eq!(
        g.fragment_bind_group.entries,
        vec![
            BindGroupEntry { binding: 0, resource: BindingResource::TextureView(res.texture_view) },
            BindGroupEntry { binding: 1, resource: BindingResource::Sampler(res.sampler) },
        ]
    );
    assert_eq!(res.sampler, s.gpu_context().sampler);
    assert_eq!(res.texture_view, s.textures().surface_texture_view.id);
    assert_eq!(res.vertex_buffer, s.scene().vertex_buffer.id);
    assert_eq!(res.camera_buffer, s.camera().buffer.id);
    assert_eq!(res.frame_buffer, s.surface_state().frame_info.frame_buffer.id);
    assert_eq!(s.textures().surface_texture_view.size, s.surface_state().size);
    assert_eq!(s.textures().texture_buffer_a.size, s.surface_state().size);
    assert_eq!(s.textures().texture_buffer_b.size, s.surface_state().size);
    assert_eq!(s.camera().camera.sensor_pixel_size, s.surface_state().size);
}

#[test]
fn no_state_for_a_zero_timestep() {
    assert!(State::new(SIZE, 0).is_none());
}

#[test]
fn new_state_is_the_fresh_start() {
    let s = state();
    assert_eq!(s.surface_state().size, SIZE);
    assert_eq!(s.surface_state().frame_info.scheduler.timestep(), STEP);
    assert_eq!(s.surface_state().frame_info.frame_uniform.global_frame_info, [0, 0, 0, 0]);
    assert_eq!(
        s.camera().camera,
        PhysicalCamera {
            pitch: 0,
            yaw: INITIAL_YAW,
            position: Position { x: 0, y: 0, z: 0 },
            fov: 157_080_000,
            sensor_pixel_size: SIZE,
        }
    );
    assert_eq!(s.config().speed, 400);
    assert_eq!(s.scene().tris, vec![[0u32; 4]]);
    assert!(!s.quit_flag());
    assert_eq!(s.input_handler().flags, InputFlags::default());
    assert_eq!(s.gpu_context().sampler, ResourceId(0));
    assert_eq!(s.surface_state().frame_info.frame_buffer.id, ResourceId(1));
    assert_eq!(s.camera().buffer.id, ResourceId(2));
    assert_eq!(s.scene().material_buffer.id, ResourceId(3));
    assert_eq!(s.scene().vertex_buffer.id, ResourceId(4));
    assert_eq!(s.scene().tri_buffer.id, ResourceId(5));
    assert_eq!(s.textures().surface_texture_view.id, ResourceId(6));
    assert_eq!(s.textures().texture_buffer_a.id, ResourceId(7));
    assert_eq!(s.textures().texture_buffer_b.id, ResourceId(8));
    assert!(s.can_allocate(3));
    assert!(s.can_allocate(u64::MAX - 9));
    assert!(!s.can_allocate(u64::MAX - 8));
    assert_nothing_stale(&s);
    assert_eq!(s.pipelines().compute_pipeline.bind_group_layouts.len(), 4);
}

#[test]
fn resize_allocates_anew_and_rebinds() {
    let mut s = state();
    let size = PhysicalSize { width: 1024, height: 768 };
    assert_eq!(s.resize(size), Invalidation::resolution());
    assert_eq!(s.surface_state().size, size);
    assert_eq!(s.textures().surface_texture_view.id, ResourceId(9));
    assert_eq!(s.textures().texture_buffer_a.id, ResourceId(10));
    assert_eq!(s.textures().texture_buffer_b.id, ResourceId(11));
    assert_eq!(s.camera().buffer.id, ResourceId(2));
    assert_eq!(s.camera().uniform.source.sensor_pixel_size, size);
    assert_eq!(s.camera().buffer.contents, s.camera().uniform);
    assert_nothing_stale(&s);
}

#[test]
fn resize_to_no_area_is_passed_over() {
    let mut s = state();
    let before = s.bound_resources();
    assert_eq!(s.resize(PhysicalSize { width: 0, height: 600 }), Invalidation::none());
    assert_eq!(s.resize(PhysicalSize { width: 800, height: 0 }), Invalidation::none());
    assert_eq!(s.resize(PhysicalSize { width: 0, height: 0 }), Invalidation::none());
    assert_eq!(s.surface_state().size, SIZE);
    assert_eq!(s.bound_resources(), before);
    assert!(s.can_allocate(u64::MAX - 9));
    assert_nothing_stale(&s);
}

#[test]
fn resize_and_back_gives_new_allocations_in_the_old_shape() {
    let mut s = state();
    let start_groups = s.bind_groups().clone();
    let start_ids = bound_ids(&s);
    let start_textures = *s.textures();
    s.resize(PhysicalSize { width: 320, height: 200 });
    let detour_textures = *s.textures();
    s.resize(SIZE);

    assert_eq!(s.surface_state().size, SIZE);
    assert_nothing_stale(&s);
    let t = s.textures();
    assert_eq!(t.surface_texture_view.size, SIZE);
    assert_eq!(t.texture_buffer_a.sample_count(), 480_000);
    let replaced = [
        start_textures.surface_texture_view.id,
        start_textures.texture_buffer_a.id,
        start_textures.texture_buffer_b.id,
        detour_textures.surface_texture_view.id,
        detour_textures.texture_buffer_a.id,
        detour_textures.texture_buffer_b.id,
    ];
    for id in [t.surface_texture_view.id, t.texture_buffer_a.id, t.texture_buffer_b.id] {
        assert!(!replaced.contains(&id));
        assert!(!start_ids.contains(&id));
    }
    for id in bound_ids(&s) {
        assert!(!replaced.contains(&id));
    }
    for slot in [
        GroupSlot::Scene,
        GroupSlot::Camera,
        GroupSlot::Compute,
        GroupSlot::Fragment,
        GroupSlot::AReadBWrite,
        GroupSlot::BReadAWrite,
    ] {
        assert_eq!(s.bind_groups().layout(slot).entries, start_groups.layout(slot).entries);
        assert!(check_conformance(s.bind_groups().group(slot), s.bind_groups().layout(slot)));
        let now = &s.bind_groups().group(slot).entries;
        let then = &start_groups.group(slot).entries;
        assert_eq!(now.len(), then.len());
        for (a, b) in now.iter().zip(then.iter()) {
            assert_eq!(a.binding, b.binding);
            assert_eq!(
                std::mem::discriminant(&a.resource),
                std::mem::discriminant(&b.resource)
            );
        }
    }
    assert_eq!(s.bind_groups().scene_bind_group.entries, start_groups.scene_bind_group.entries);
    assert_eq!(s.bind_groups().camera_bind_group.entries, start_groups.camera_bind_group.entries);
}

#[test]
fn render_gives_the_commands_of_the_frame() {
    let mut s = state();
    let expected = |pairing: GroupSlot| FrameCommands {
        compute: ComputePass {
            group_0: GroupSlot::Compute,
            group_1: GroupSlot::Camera,
            group_2: GroupSlot::Scene,
            group_3: pairing,
            workgroups_x: 100,
            workgroups_y: 75,
            workgroups_z: 1,
        },
        raster: RenderPass { group_0: GroupSlot::Fragment, vertices: 3, instances: 1 },
    };
    assert_eq!(s.render(None), Ok(expected(GroupSlot::AReadBWrite)));
    s.begin_frame();
    assert_eq!(s.render(None), Ok(expected(GroupSlot::BReadAWrite)));
    s.begin_frame();
    assert_eq!(s.render(None), Ok(expected(GroupSlot::AReadBWrite)));
}

#[test]
fn render_rounds_the_workgroups_up() {
    let s = State::new(PhysicalSize { width: 801, height: 1 }, STEP).unwrap();
    let c = s.render(None).unwrap();
    assert_eq!((c.compute.workgroups_x, c.compute.workgroups_y, c.compute.workgroups_z), (101, 1, 1));
}

#[test]
fn render_hands_a_surface_error_through() {
    let s = state();
    for e in [
        SurfaceError::Timeout,
        SurfaceError::Outdated,
        SurfaceError::Lost,
        SurfaceError::OutOfMemory,
        SurfaceError::Other,
    ] {
        assert_eq!(s.render(Some(e)), Err(e));
    }
}

#[test]
fn the_groups_of_a_frame_fit_the_pipeline_layouts() {
    let s = state();
    let c = s.render(None).unwrap();
    let layouts = &s.pipelines().compute_pipeline.bind_group_layouts;
    let groups = s.bind_groups();
    assert!(check_conformance(groups.group(c.compute.group_0), &layouts[0]));
    assert!(check_conformance(groups.group(c.compute.group_1), &layouts[1]));
    assert!(check_conformance(groups.group(c.compute.group_2), &layouts[2]));
    assert!(check_conformance(groups.group(c.compute.group_3), &layouts[3]));
    assert!(check_conformance(groups.group(GroupSlot::BReadAWrite), &layouts[3]));
    assert!(check_conformance(
        groups.group(c.raster.group_0),
        &s.pipelines().render_pipeline.bind_group_layouts[0]
    ));
}

#[test]
fn begin_frame_counts_frames_and_uploads() {
    let mut s = state();
    s.begin_frame();
    s.begin_frame();
    s.begin_frame();
    assert_eq!(frame(&s), 3);
    assert_eq!(
        s.surface_state().frame_info.frame_buffer.contents,
        s.surface_state().frame_info.frame_uniform
    );
    assert_eq!(since_moved(&s), 0);
}

#[test]
fn the_frame_counter_does_not_depend_on_ticks() {
    let mut s = state();
    let mut d = ActionDispatcher::new();
    s.begin_frame();
    let due = s.get_ticks(5 * STEP);
    assert_eq!(due.ticks, 5);
    for _ in 0..due.ticks {
        s.tick(&mut d);
    }
    assert_eq!(frame(&s), 1);
    assert_eq!(since_moved(&s), 5);
    s.begin_frame();
    assert_eq!(s.get_ticks(STEP - 1).ticks, 0);
    assert_eq!(frame(&s), 2);
    assert_eq!(since_moved(&s), 5);
}

#[test]
fn the_tick_counter_resets_on_exactly_the_changing_ticks() {
    let mut s = state();
    let mut d = ActionDispatcher::new();
    s.tick(&mut d);
    s.tick(&mut d);
    assert_eq!(since_moved(&s), 2);

    // A movement.
    press(&mut s, KEY_W);
    let out = s.tick(&mut d);
    assert_eq!(out.movement.forward, 1);
    assert_eq!(since_moved(&s), 0);
    s.tick(&mut d);
    assert_eq!(since_moved(&s), 0);
    release(&mut s, KEY_W);
    s.tick(&mut d);
    assert_eq!(since_moved(&s), 1);

    // Opposite movements cancel out.
    press(&mut s, KEY_W);
    press(&mut s, KEY_S);
    s.tick(&mut d);
    assert_eq!(since_moved(&s), 2);
    release(&mut s, KEY_W);
    release(&mut s, KEY_S);
    s.tick(&mut d);
    assert_eq!(since_moved(&s), 3);

    // A change of the field of view.
    press(&mut s, KEY_C);
    s.tick(&mut d);
    assert_eq!(since_moved(&s), 0);
    s.tick(&mut d);
    assert_eq!(since_moved(&s), 1);
    release(&mut s, KEY_C);
    s.tick(&mut d);
    assert_eq!(since_moved(&s), 0);
    s.tick(&mut d);
    assert_eq!(since_moved(&s), 1);

    // A change of the scene.
    press(&mut s, KEY_T);
    let out = s.tick(&mut d);
    assert_eq!(out.scene_regenerations, 1);
    assert_eq!(since_moved(&s), 0);
    s.tick(&mut d);
    assert_eq!(since_moved(&s), 1);

    // A key that changes nothing in view.
    press(&mut s, KEY_ESCAPE);
    s.tick(&mut d);
    assert_eq!(since_moved(&s), 2);
    assert!(s.quit_flag());

    // A turn of the camera between two ticks.
    s.process_input(&InputEvent::MouseMotion { dx: 1_000, dy: 0 });
    s.tick(&mut d);
    assert_eq!(since_moved(&s), 0);
    s.tick(&mut d);
    assert_eq!(since_moved(&s), 1);

    // A switch to full screen.
    press(&mut s, KEY_F11);
    let out = s.tick(&mut d);
    assert_eq!(out.fullscreen_toggles, 1);
    assert_eq!(since_moved(&s), 0);
}

#[test]
fn tick_applies_zoom_to_the_camera() {
    let mut s = state();
    let mut d = ActionDispatcher::new();
    press(&mut s, KEY_C);
    s.tick(&mut d);
    assert_eq!(s.camera().camera.fov, 15_708 * 15_000);
    assert!(s.input_handler().flags.is_zoomed);
    assert_eq!(s.camera().buffer.contents.source, s.camera().camera);
    for step in 1..=10 {
        s.process_input(&InputEvent::MouseWheel { vertical: 1 });
        s.tick(&mut d);
        assert_eq!(s.camera().camera.fov, 15_708 * (15_000 + 100 * step));
    }
    assert_eq!(d.zoom, 1_000);
    release(&mut s, KEY_C);
    s.tick(&mut d);
    assert_eq!(s.camera().camera.fov, 157_080_000);
    assert_eq!(d.zoom, 0);
    assert!(!s.input_handler().flags.is_zoomed);
    assert!(!s.input_handler().flags.camera_has_moved);
    assert_eq!(s.camera().buffer.contents.source, s.camera().camera);
}

#[test]
fn tick_hands_back_the_movement_and_keeps_the_position() {
    let mut s = state();
    let mut d = ActionDispatcher::new();
    press(&mut s, KEY_W);
    let out = s.tick(&mut d);
    assert_eq!(
        out.movement,
        Movement { forward: 1, back: 0, right: 0, left: 0, up: 0, down: 0 }
    );
    assert_eq!(s.camera().camera.position, Position { x: 0, y: 0, z: 0 });
    // -0.04 along z.
    let z = (-(s.config().speed as f32) / 10_000.0).to_bits();
    s.set_camera_position(Position { x: 0, y: 0, z });
    assert_eq!(f32::from_bits(s.camera().camera.position.z), -0.04);
    assert_eq!(s.camera().uniform.source.position.z, 0xbd23_d70a);
    assert_eq!(s.camera().buffer.contents, s.camera().uniform);
    assert_nothing_stale(&s);
}

#[test]
fn quit_sets_the_flag() {
    let mut s = state();
    s.quit();
    assert!(s.quit_flag());
    assert_nothing_stale(&s);
}

#[test]
fn regenerate_scene_rebinds_the_scene_data() {
    let mut s = state();
    let before = s.bound_resources();
    let vertices = vec![[1, 2, 3, 4], [5, 6, 7, 8], [9, 10, 11, 12]];
    let tris = vec![[0, 1, 2, 0]];
    let r = s.regenerate_scene([7, 8, 9], vertices.clone(), tris.clone());
    assert_eq!(r, Ok(Invalidation::only(ResourceFamily::SceneData)));
    assert_eq!(s.scene().vertices, vertices);
    assert_eq!(s.scene().tris, tris);
    assert_eq!(s.scene().materials[0].albedo_and_mat, [7, 8, 9, 0x4000_0000]);
    assert_eq!(s.scene().material_buffer.id, ResourceId(9));
    assert_eq!(s.scene().vertex_buffer.id, ResourceId(10));
    assert_eq!(s.scene().tri_buffer.id, ResourceId(11));
    let after = s.bound_resources();
    assert_eq!(after.texture_view, before.texture_view);
    assert_eq!(after.camera_buffer, before.camera_buffer);
    assert_nothing_stale(&s);
}

#[test]
fn regenerate_scene_turns_down_bad_geometry() {
    let mut s = state();
    let before = s.bound_resources();
    let r = s.regenerate_scene([7, 8, 9], vec![], vec![[0, 0, 0, 1]]);
    assert_eq!(r, Err(SceneError::MaterialOutOfRange));
    assert_eq!(s.bound_resources(), before);
    assert_eq!(s.scene().tris, vec![[0u32; 4]]);
    assert_nothing_stale(&s);
}

#[test]
fn window_events_are_answered() {
    let mut s = state();
    assert_eq!(s.process_event(WindowEvent::CloseRequested), EventResponse::Exit);
    assert_eq!(s.process_event(WindowEvent::Other), EventResponse::Ignored);
    let size = PhysicalSize { width: 16, height: 9 };
    assert_eq!(
        s.process_event(WindowEvent::Resized(size)),
        EventResponse::Resized(Invalidation::resolution())
    );
    assert_eq!(s.surface_state().size, size);
    assert_eq!(
        s.process_event(WindowEvent::Resized(PhysicalSize { width: 0, height: 0 })),
        EventResponse::Resized(Invalidation::none())
    );
    assert_eq!(s.surface_state().size, size);
    let drawn = s.process_event(WindowEvent::RedrawRequested { surface: None });
    assert_eq!(drawn, EventResponse::Draw(s.render(None).unwrap()));
    match drawn {
        EventResponse::Draw(c) => {
            assert_eq!((c.compute.workgroups_x, c.compute.workgroups_y), (2, 2));
        }
        _ => panic!("a frame was due"),
    }
    assert_nothing_stale(&s);
}

#[test]
fn a_lost_or_outdated_surface_is_rebuilt_and_the_frame_skipped() {
    for e in [SurfaceError::Lost, SurfaceError::Outdated] {
        let mut s = state();
        let before = *s.textures();
        let r = s.process_event(WindowEvent::RedrawRequested { surface: Some(e) });
        assert_eq!(r, EventResponse::Rebuilt(Invalidation::resolution()));
        assert_eq!(s.surface_state().size, SIZE);
        assert_ne!(s.textures().surface_texture_view.id, before.surface_texture_view.id);
        assert_ne!(s.textures().texture_buffer_a.id, before.texture_buffer_a.id);
        assert_eq!(s.textures().texture_buffer_a.size, SIZE);
        assert_eq!(frame(&s), 0);
        assert_nothing_stale(&s);
    }
}

#[test]
fn a_timeout_skips_the_frame_and_changes_nothing() {
    let mut s = state();
    let before = s.bound_resources();
    let r = s.process_event(WindowEvent::RedrawRequested { surface: Some(SurfaceError::Timeout) });
    assert_eq!(r, EventResponse::Skipped);
    assert_eq!(s.bound_resources(), before);
    assert!(!s.quit_flag());
}

#[test]
fn out_of_memory_and_unknown_failures_are_fatal() {
    for e in [SurfaceError::OutOfMemory, SurfaceError::Other] {
        let mut s = state();
        let before = s.bound_resources();
        let r = s.process_event(WindowEvent::RedrawRequested { surface: Some(e) });
        assert_eq!(r, EventResponse::Fatal);
        assert_eq!(s.bound_resources(), before);
    }
}

#[test]
fn a_new_camera_buffer_is_bound_at_once() {
    let mut s = state();
    let old = s.camera().buffer.id;
    let r = s.reallocate_camera_buffer();
    assert_eq!(r, Invalidation::only(ResourceFamily::CameraUniform));
    let new = s.camera().buffer.id;
    assert_eq!(new, ResourceId(9));
    assert_ne!(new, old);
    assert_eq!(
        s.bind_groups().camera_bind_group.entries,
        vec![BindGroupEntry { binding: 0, resource: BindingResource::Buffer(new) }]
    );
    assert!(!bound_ids(&s).contains(&old));
    assert_eq!(s.camera().buffer.contents, s.camera().uniform);
    assert_nothing_stale(&s);
}
