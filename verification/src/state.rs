//! The renderer's state as a whole, and the frame loop's steps on it.
//!
//! The state is one value that the event loop owns and hands to every step.
//! Each step leaves a consistent state consistent: the resolution-dependent
//! allocations have the size of the surface, and no binding names an
//! allocation that has been replaced. Whatever a step replaces, it says so
//! by the families it hands back, for the host to do the same on the device.

use vstd::prelude::*;
use crate::bind_groups::{
    conforms,
    same_shape,
    BindGroups,
    BoundResources,
    GroupSlot,
    Invalidation,
    ResourceFamily,
};
use crate::camera::{Camera, PhysicalCamera, Position};
use crate::config::StateConfigs;
use crate::frame::{
    next_frame,
    next_since_moved,
    spec_ping_pong,
    spec_workgroup_count,
    workgroup_count,
    FrameInfo,
    Ticks,
};
use crate::input::dispatcher::{
    after_tick,
    lemma_after_tick_mark,
    outcome_of,
    view_changes,
    ActionDispatcher,
    Controls,
    DispatchOutcome,
};
use crate::input::handler::{due_actions, InputEvent, InputFlags, InputHandler};
use crate::pipelines::Pipelines;
use crate::resource::{PhysicalSize, ResourceAllocator, ResourceId};
use crate::scene::{materials_in_range, Scene, SceneError};
use crate::scheduler::FrameScheduler;
use crate::texture::Textures;

verus! {

/// Number of vertices of the triangle that covers the screen.
pub const FULL_SCREEN_VERTICES: u32 = 3;

/// Why no image of the surface could be had for a frame.
#[derive(Clone, Copy, PartialEq, Eq, Debug, Structural)]
pub enum SurfaceError {
    Timeout,
    Outdated,
    Lost,
    OutOfMemory,
    Other,
}

/// The compute dispatch of a frame.
#[derive(Clone, Copy, PartialEq, Eq, Debug, Structural)]
pub struct ComputePass {
    /// The groups to set at the group indices 0 to 3.
    pub group_0: GroupSlot,
    pub group_1: GroupSlot,
    pub group_2: GroupSlot,
    pub group_3: GroupSlot,
    /// Workgroups along the width.
    pub workgroups_x: u32,
    /// Workgroups along the height.
    pub workgroups_y: u32,
    /// Workgroups in depth.
    pub workgroups_z: u32,
}

/// The raster pass of a frame: one triangle over the whole screen, without
/// a vertex buffer.
#[derive(Clone, Copy, PartialEq, Eq, Debug, Structural)]
pub struct RenderPass {
    /// The group to set at group index 0.
    pub group_0: GroupSlot,
    pub vertices: u32,
    pub instances: u32,
}

/// What is recorded and submitted for one frame, in this order.
#[derive(Clone, Copy, PartialEq, Eq, Debug, Structural)]
pub struct FrameCommands {
    pub compute: ComputePass,
    pub raster: RenderPass,
}

/// An event of the window, reduced to what the frame loop reads.
#[derive(Clone, Copy, PartialEq, Eq, Debug, Structural)]
pub enum WindowEvent {
    CloseRequested,
    Resized(PhysicalSize),
    /// A frame is to be drawn; `surface` says why no image of the surface
    /// could be had, if none could.
    RedrawRequested { surface: Option<SurfaceError> },
    Other,
}

/// What the host has to do after an event.
#[derive(Clone, Copy, PartialEq, Eq, Debug, Structural)]
pub enum EventResponse {
    /// Leave the event loop.
    Exit,
    /// Leave the event loop because of an error that cannot be recovered.
    Fatal,
    /// The surface has a new size; the families named were rebuilt.
    Resized(Invalidation),
    /// Record, submit and present the frame.
    Draw(FrameCommands),
    /// The surface was lost or outdated: this frame is skipped, the families
    /// named were rebuilt for the current size.
    Rebuilt(Invalidation),
    /// This frame is skipped and nothing has changed.
    Skipped,
    /// Nothing to do.
    Ignored,
}

/// The surface's side of the state: its size and the frame bookkeeping.
#[derive(Debug)]
pub struct SurfaceState {
    pub size: PhysicalSize,
    pub frame_info: FrameInfo,
}

/// The allocations that live as long as the device.
#[derive(Clone, Copy, PartialEq, Eq, Debug, Structural)]
pub struct GpuContext {
    pub sampler: ResourceId,
}

/// Everything the frame loop works on.
#[derive(Debug)]
pub struct State {
    surface_state: SurfaceState,
    gpu_context: GpuContext,
    camera: Camera,
    scene: Scene,
    config: StateConfigs,
    bind_groups: BindGroups,
    textures: Textures,
    pipelines: Pipelines,
    input_handler: InputHandler,
    alloc: ResourceAllocator,
    quit_flag: bool,
}

impl State {
    pub closed spec fn spec_surface_state(&self) -> &SurfaceState {
        &self.surface_state
    }

    pub closed spec fn spec_gpu_context(&self) -> &GpuContext {
        &self.gpu_context
    }

    pub closed spec fn spec_camera(&self) -> &Camera {
        &self.camera
    }

    pub closed spec fn spec_scene(&self) -> &Scene {
        &self.scene
    }

    pub closed spec fn spec_config(&self) -> &StateConfigs {
        &self.config
    }

    pub closed spec fn spec_bind_groups(&self) -> &BindGroups {
        &self.bind_groups
    }

    pub closed spec fn spec_textures(&self) -> &Textures {
        &self.textures
    }

    pub closed spec fn spec_pipelines(&self) -> &Pipelines {
        &self.pipelines
    }

    pub closed spec fn spec_input_handler(&self) -> &InputHandler {
        &self.input_handler
    }

    pub closed spec fn allocator(&self) -> &ResourceAllocator {
        &self.alloc
    }

    pub closed spec fn spec_quit_flag(&self) -> bool {
        self.quit_flag
    }

    #[verifier::when_used_as_spec(spec_surface_state)]
    pub fn surface_state(&self) -> (r: &SurfaceState)
        ensures
            r == self.spec_surface_state(),
    {
        &self.surface_state
    }

    #[verifier::when_used_as_spec(spec_gpu_context)]
    pub fn gpu_context(&self) -> (r: &GpuContext)
        ensures
            r == self.spec_gpu_context(),
    {
        &self.gpu_context
    }

    #[verifier::when_used_as_spec(spec_camera)]
    pub fn camera(&self) -> (r: &Camera)
        ensures
            r == self.spec_camera(),
    {
        &self.camera
    }

    #[verifier::when_used_as_spec(spec_scene)]
    pub fn scene(&self) -> (r: &Scene)
        ensures
            r == self.spec_scene(),
    {
        &self.scene
    }

    #[verifier::when_used_as_spec(spec_config)]
    pub fn config(&self) -> (r: &StateConfigs)
        ensures
            r == self.spec_config(),
    {
        &self.config
    }

    #[verifier::when_used_as_spec(spec_bind_groups)]
    pub fn bind_groups(&self) -> (r: &BindGroups)
        ensures
            r == self.spec_bind_groups(),
    {
        &self.bind_groups
    }

    #[verifier::when_used_as_spec(spec_textures)]
    pub fn textures(&self) -> (r: &Textures)
        ensures
            r == self.spec_textures(),
    {
        &self.textures
    }

    #[verifier::when_used_as_spec(spec_pipelines)]
    pub fn pipelines(&self) -> (r: &Pipelines)
        ensures
            r == self.spec_pipelines(),
    {
        &self.pipelines
    }

    #[verifier::when_used_as_spec(spec_input_handler)]
    pub fn input_handler(&self) -> (r: &InputHandler)
        ensures
            r == self.spec_input_handler(),
    {
        &self.input_handler
    }

    #[verifier::when_used_as_spec(spec_quit_flag)]
    pub fn quit_flag(&self) -> (r: bool)
        ensures
            r == self.spec_quit_flag(),
    {
        self.quit_flag
    }

    /// The allocations that the bindings have to be built over.
    pub open spec fn resources(&self) -> BoundResources {
        BoundResources {
            sampler: self.gpu_context().sampler,
            vertex_buffer: self.scene().vertex_buffer.id,
            tri_buffer: self.scene().tri_buffer.id,
            material_buffer: self.scene().material_buffer.id,
            camera_buffer: self.camera().buffer.id,
            frame_buffer: self.surface_state().frame_info.frame_buffer.id,
            texture_buffer_a: self.textures().texture_buffer_a.id,
            texture_buffer_b: self.textures().texture_buffer_b.id,
            texture_view: self.textures().surface_texture_view.id,
        }
    }

    /// Whether `id` is one of the allocations that are in use.
    pub open spec fn live(&self, id: ResourceId) -> bool {
        let res = self.resources();
        id == res.sampler || id == res.vertex_buffer || id == res.tri_buffer || id
            == res.material_buffer || id == res.camera_buffer || id == res.frame_buffer || id
            == res.texture_buffer_a || id == res.texture_buffer_b || id == res.texture_view
    }

    /// Every part is consistent in itself.
    pub open spec fn parts_wf(&self) -> bool {
        &&& self.camera().wf()
        &&& self.scene().wf()
        &&& self.textures().wf()
        &&& self.bind_groups().wf()
        &&& self.pipelines().built_for(self.bind_groups())
    }

    /// Camera and resolution-dependent allocations have the surface's size.
    pub open spec fn one_resolution(&self) -> bool {
        &&& self.textures().sized(self.surface_state().size)
        &&& self.camera().camera.sensor_pixel_size == self.surface_state().size
    }

    /// No binding is stale, no allocation is in use twice, and every
    /// allocation in use was handed out by the state's own allocator.
    pub open spec fn bindings_live(&self) -> bool {
        let res = self.resources();
        let alloc = self.allocator();
        &&& self.bind_groups().bound_to(res)
        &&& res.distinct()
        &&& alloc.issued(res.sampler)
        &&& alloc.issued(res.vertex_buffer)
        &&& alloc.issued(res.tri_buffer)
        &&& alloc.issued(res.material_buffer)
        &&& alloc.issued(res.camera_buffer)
        &&& alloc.issued(res.frame_buffer)
        &&& alloc.issued(res.texture_buffer_a)
        &&& alloc.issued(res.texture_buffer_b)
        &&& alloc.issued(res.texture_view)
    }

    /// The state is consistent.
    pub open spec fn wf(&self) -> bool {
        self.parts_wf() && self.one_resolution() && self.bindings_live()
    }

    /// Whether the state can take `count` more allocations.
    pub fn can_allocate(&self, count: u64) -> (r: bool)
        ensures
            r == self.allocator().has_room(count as int),
    {
        self.alloc.can_allocate(count)
    }

    /// The exec form of [`Self::resources`].
    pub fn bound_resources(&self) -> (r: BoundResources)
        ensures
            r == self.resources(),
    {
        BoundResources {
            sampler: self.gpu_context.sampler,
            vertex_buffer: self.scene.vertex_buffer.id,
            tri_buffer: self.scene.tri_buffer.id,
            material_buffer: self.scene.material_buffer.id,
            camera_buffer: self.camera.buffer.id,
            frame_buffer: self.surface_state.frame_info.frame_buffer.id,
            texture_buffer_a: self.textures.texture_buffer_a.id,
            texture_buffer_b: self.textures.texture_buffer_b.id,
            texture_view: self.textures.surface_texture_view.id,
        }
    }

    /// The state of a fresh start for a surface of the given size and a
    /// logic tick of `timestep` nanoseconds: default settings, the camera at
    /// the origin, the one-triangle scene, frame zero, nothing held down.
    /// There is no state for a tick of no length.
    pub fn new(size: PhysicalSize, timestep: u64) -> (r: Option<State>)
        ensures
            r is None <==> timestep == 0,
            r matches Some(s) ==> {
                &&& s.wf()
                &&& s.surface_state().size == size
                &&& s.surface_state().frame_info.scheduler.timestep() == timestep
                &&& s.surface_state().frame_info.scheduler.accumulator() == 0
                &&& s.surface_state().frame_info.frame_uniform.global_frame_info@ == seq![
                    0u32,
                    0u32,
                    0u32,
                    0u32,
                ]
                &&& s.surface_state().frame_info.uploaded()
                &&& *s.config() == (StateConfigs {
                    base_zoom: 15_000,
                    speed: 400,
                    focal: 10_000,
                    fov: 15_708,
                    sensitivity: 1_000,
                })
                &&& s.camera().camera == (PhysicalCamera {
                    pitch: 0,
                    yaw: crate::camera::INITIAL_YAW,
                    position: Position { x: 0, y: 0, z: 0 },
                    fov: 157_080_000,
                    sensor_pixel_size: size,
                })
                &&& s.surface_state().frame_info.since_report == 0
                &&& s.surface_state().frame_info.frame_count == 0
                &&& s.scene().mirrored()
                &&& s.scene().materials@.len() == 1
                &&& forall|k: int| 0 <= k < 12 ==> s.scene().materials@[0].word(k) == 0
                &&& s.scene().vertices@.len() == 1
                &&& s.scene().vertices@[0]@ == seq![0u32, 0u32, 0u32, 0u32]
                &&& s.scene().tris@.len() == 1
                &&& s.scene().tris@[0]@ == seq![0u32, 0u32, 0u32, 0u32]
                &&& s.input_handler().bindings@ == crate::input::handler::default_bindings()
                &&& s.input_handler().flags == (InputFlags {
                    is_zoomed: false,
                    scrolled_up: false,
                    scrolled_down: false,
                    camera_has_moved: false,
                })
                &&& s.input_handler().keys.held@.len() == 0
                &&& s.input_handler().keys.just_pressed@.len() == 0
                &&& s.input_handler().keys.just_released@.len() == 0
                &&& s.input_handler().mouse.held@.len() == 0
                &&& s.input_handler().mouse.just_clicked@.len() == 0
                &&& s.input_handler().mouse.just_released@.len() == 0
                &&& !s.quit_flag()
                &&& s.resources() == (BoundResources {
                    sampler: ResourceId(0),
                    frame_buffer: ResourceId(1),
                    camera_buffer: ResourceId(2),
                    material_buffer: ResourceId(3),
                    vertex_buffer: ResourceId(4),
                    tri_buffer: ResourceId(5),
                    texture_view: ResourceId(6),
                    texture_buffer_a: ResourceId(7),
                    texture_buffer_b: ResourceId(8),
                })
                &&& s.allocator().next() == 9
            },
    {
        let scheduler = match FrameScheduler::new(timestep) {
            Some(scheduler) => scheduler,
            None => {
                return None;
            },
        };
        let quit_flag = false;
        let config = StateConfigs::default();
        let mut alloc = ResourceAllocator::new();
        let gpu_context = GpuContext { sampler: alloc.allocate() };
        let surface_state = SurfaceState { size, frame_info: FrameInfo::new(&mut alloc, scheduler) };
        let camera = Camera::new(&mut alloc, size, config.base_fov());
        let scene = Scene::new(&mut alloc);
        let textures = Textures::new(&mut alloc, size);
        let bind_groups = BindGroups::new(
            gpu_context.sampler,
            scene.vertex_buffer.id,
            scene.tri_buffer.id,
            scene.material_buffer.id,
            camera.buffer.id,
            surface_state.frame_info.frame_buffer.id,
            textures.texture_buffer_a.id,
            textures.texture_buffer_b.id,
            textures.surface_texture_view.id,
        );
        let pipelines = Pipelines::new(&bind_groups);
        let input_handler = InputHandler::new_defaults();
        Some(
            State {
                surface_state,
                gpu_context,
                camera,
                scene,
                config,
                bind_groups,
                textures,
                pipelines,
                input_handler,
                alloc,
                quit_flag,
            },
        )
    }

    /// Everything but the resolution-dependent parts is as in `pre`.
    pub open spec fn resolution_free_parts_kept(&self, pre: &State) -> bool {
        &&& self.surface_state().frame_info == pre.surface_state().frame_info
        &&& self.gpu_context() == pre.gpu_context()
        &&& self.scene() == pre.scene()
        &&& self.config() == pre.config()
        &&& self.pipelines() == pre.pipelines()
        &&& self.input_handler() == pre.input_handler()
        &&& self.quit_flag() == pre.quit_flag()
    }

    /// This is `pre` with the output image and the accumulation buffers
    /// allocated anew for `size`, and the bindings over them rebuilt.
    pub open spec fn reallocated_from(&self, pre: &State, size: PhysicalSize) -> bool {
        &&& self.textures().wf()
        &&& self.textures().sized(size)
        &&& self.textures().surface_texture_view.id.0 == pre.allocator().next()
        &&& self.textures().texture_buffer_a.id.0 == pre.allocator().next() + 1
        &&& self.textures().texture_buffer_b.id.0 == pre.allocator().next() + 2
        &&& self.allocator().next() == pre.allocator().next() + 3
        &&& self.bind_groups().rebuilt_from(
            pre.bind_groups(),
            Invalidation::resolution(),
            self.resources(),
        )
        &&& self.resolution_free_parts_kept(pre)
    }

    /// This is `pre` after the surface took the size `size`: unchanged if the
    /// size has no area, else with the new size throughout.
    pub open spec fn resized_from(&self, pre: &State, size: PhysicalSize) -> bool {
        if size.width > 0 && size.height > 0 {
            &&& self.surface_state().size == size
            &&& self.camera().camera == (PhysicalCamera {
                sensor_pixel_size: size,
                ..pre.camera().camera
            })
            &&& self.camera().built()
            &&& self.camera().uploaded()
            &&& self.camera().buffer.id == pre.camera().buffer.id
            &&& self.reallocated_from(pre, size)
        } else {
            *self == *pre
        }
    }

    /// Allocates the output image and the accumulation buffers anew for
    /// `new_size` and rebuilds the compute-stage group, the presentation
    /// group and both accumulation pairings over them.
    fn rebuild_texture_and_bind_groups(&mut self, new_size: PhysicalSize)
        requires
            old(self).allocator().has_room(3),
        ensures
            final(self).reallocated_from(old(self), new_size),
            final(self).surface_state().size == old(self).surface_state().size,
            final(self).camera() == old(self).camera(),
            old(self).parts_wf() && old(self).bindings_live() ==> final(self).parts_wf()
                && final(self).bindings_live(),
    {
        self.textures = Textures::new(&mut self.alloc, new_size);
        self.bind_groups.rebuild_compute_bind_group(
            self.surface_state.frame_info.frame_buffer.id,
            self.textures.surface_texture_view.id,
        );
        self.bind_groups.rebuild_fragment_bind_group(
            self.gpu_context.sampler,
            self.textures.surface_texture_view.id,
        );
        self.bind_groups.rebuild_texture_buffer_bind_groups(
            self.textures.texture_buffer_a.id,
            self.textures.texture_buffer_b.id,
        );
        proof {
            if old(self).parts_wf() && old(self).bindings_live() {
                BindGroups::lemma_rebuild_leaves_nothing_stale(
                    old(self).bind_groups,
                    self.bind_groups,
                    Invalidation::resolution(),
                    old(self).resources(),
                    self.resources(),
                );
            }
        }
    }

    /// Takes over a new size of the surface. A size without area is passed
    /// over; any other becomes the resolution of the camera and of newly
    /// allocated images and accumulation buffers, with the bindings over
    /// them rebuilt. Says which families were rebuilt.
    pub fn resize(&mut self, new_size: PhysicalSize) -> (rebuilt: Invalidation)
        requires
            old(self).allocator().has_room(3),
        ensures
            old(self).wf() ==> final(self).wf(),
            final(self).resized_from(old(self), new_size),
            rebuilt == if new_size.width > 0 && new_size.height > 0 {
                Invalidation::resolution()
            } else {
                Invalidation::none()
            },
    {
        if new_size.width > 0 && new_size.height > 0 {
            self.surface_state.size = new_size;
            self.camera.resize(new_size);
            self.rebuild_texture_and_bind_groups(new_size);
            Invalidation::resolution()
        } else {
            Invalidation::none()
        }
    }

    /// What to record for the frame, given why no image of the surface could
    /// be had, if none could: nothing but the error in that case, else the
    /// compute dispatch over the pairing of the frame's parity and enough
    /// workgroups to cover the surface, then the raster pass.
    pub fn render(&self, surface: Option<SurfaceError>) -> (r: Result<FrameCommands, SurfaceError>)
        ensures
            match surface {
                Some(error) => r == Err::<FrameCommands, SurfaceError>(error),
                None => r == Ok::<FrameCommands, SurfaceError>(self.frame_commands()),
            },
    {
        match surface {
            Some(error) => Err(error),
            None => {
                let size = self.surface_state.size;
                Ok(
                    FrameCommands {
                        compute: ComputePass {
                            group_0: GroupSlot::Compute,
                            group_1: GroupSlot::Camera,
                            group_2: GroupSlot::Scene,
                            group_3: self.surface_state.frame_info.frame_uniform.ping_pong(),
                            workgroups_x: workgroup_count(size.width),
                            workgroups_y: workgroup_count(size.height),
                            workgroups_z: 1,
                        },
                        raster: RenderPass {
                            group_0: GroupSlot::Fragment,
                            vertices: FULL_SCREEN_VERTICES,
                            instances: 1,
                        },
                    },
                )
            },
        }
    }

    /// The commands of a frame in the current state.
    pub open spec fn frame_commands(&self) -> FrameCommands {
        FrameCommands {
            compute: ComputePass {
                group_0: GroupSlot::Compute,
                group_1: GroupSlot::Camera,
                group_2: GroupSlot::Scene,
                group_3: spec_ping_pong(
                    self.surface_state().frame_info.frame_uniform.frame(),
                ),
                workgroups_x: spec_workgroup_count(self.surface_state().size.width) as u32,
                workgroups_y: spec_workgroup_count(self.surface_state().size.height) as u32,
                workgroups_z: 1,
            },
            raster: RenderPass {
                group_0: GroupSlot::Fragment,
                vertices: FULL_SCREEN_VERTICES,
                instances: 1,
            },
        }
    }

    /// Asks the event loop to end.
    pub fn quit(&mut self)
        ensures
            final(self).quit_flag(),
            final(self).surface_state() == old(self).surface_state(),
            final(self).camera_free_parts_kept(old(self)),
            final(self).camera() == old(self).camera(),
            old(self).wf() ==> final(self).wf(),
    {
        self.quit_flag = true;
    }

    /// Starts a frame: counts it and writes the frame uniform to its buffer.
    pub fn begin_frame(&mut self)
        ensures
            final(self).surface_state().frame_info.frame_uniform.global_frame_info@
                == old(self).surface_state().frame_info.frame_uniform.global_frame_info@.update(
                0,
                next_frame(old(self).surface_state().frame_info.frame_uniform.frame()),
            ),
            final(self).surface_state().frame_info.uploaded(),
            final(self).surface_state().frame_info.frame_buffer.id
                == old(self).surface_state().frame_info.frame_buffer.id,
            final(self).surface_state().frame_info.scheduler
                == old(self).surface_state().frame_info.scheduler,
            final(self).surface_state().frame_info.since_report
                == old(self).surface_state().frame_info.since_report,
            final(self).surface_state().frame_info.frame_count
                == old(self).surface_state().frame_info.frame_count,
            final(self).surface_state().size == old(self).surface_state().size,
            final(self).frame_free_parts_kept(old(self)),
            old(self).wf() ==> final(self).wf(),
    {
        self.surface_state.frame_info.frame_uniform.begin_frame();
        self.surface_state.frame_info.update_frame_buffer();
    }

    /// Everything but the surface's side is as in `pre`.
    pub open spec fn frame_free_parts_kept(&self, pre: &State) -> bool {
        &&& self.gpu_context() == pre.gpu_context()
        &&& self.camera() == pre.camera()
        &&& self.scene() == pre.scene()
        &&& self.config() == pre.config()
        &&& self.bind_groups() == pre.bind_groups()
        &&& self.textures() == pre.textures()
        &&& self.pipelines() == pre.pipelines()
        &&& self.input_handler() == pre.input_handler()
        &&& self.allocator() == pre.allocator()
        &&& self.quit_flag() == pre.quit_flag()
    }

    /// Credits the time since the last frame, in nanoseconds, and says how
    /// many logic ticks are due before the frame is drawn, and, once a
    /// second, how many frames were drawn in it.
    pub fn get_ticks(&mut self, elapsed: u64) -> (r: Ticks)
        ensures
            final(self).surface_state().frame_info.credited_from(
                &old(self).surface_state().frame_info,
                elapsed,
                r,
            ),
            final(self).surface_state().size == old(self).surface_state().size,
            final(self).frame_free_parts_kept(old(self)),
            old(self).wf() ==> final(self).wf(),
    {
        self.surface_state.frame_info.get_ticks(elapsed)
    }

    /// Takes note of one input event; pointer motion turns the camera.
    pub fn process_input(&mut self, event: &InputEvent)
        ensures
            old(self).wf() ==> final(self).wf(),
            final(self).surface_state() == old(self).surface_state(),
            final(self).gpu_context() == old(self).gpu_context(),
            final(self).scene() == old(self).scene(),
            final(self).config() == old(self).config(),
            final(self).bind_groups() == old(self).bind_groups(),
            final(self).textures() == old(self).textures(),
            final(self).pipelines() == old(self).pipelines(),
            final(self).allocator() == old(self).allocator(),
            final(self).quit_flag() == old(self).quit_flag(),
            final(self).input_handler().bindings == old(self).input_handler().bindings,
            match *event {
                InputEvent::MouseMotion { dx, dy } => {
                    &&& final(self).camera().camera == old(self).camera().camera.turned(
                        dx,
                        dy,
                    )
                    &&& final(self).input_handler().flags == (InputFlags {
                        camera_has_moved: true,
                        ..old(self).input_handler().flags
                    })
                    &&& final(self).input_handler().keys == old(self).input_handler().keys
                    &&& final(self).input_handler().mouse == old(self).input_handler().mouse
                },
                InputEvent::KeyboardInput { key, state, repeat } => {
                    &&& final(self).camera() == old(self).camera()
                    &&& final(self).input_handler().flags == old(self).input_handler().flags
                    &&& final(self).input_handler().mouse == old(self).input_handler().mouse
                    &&& if repeat {
                        final(self).input_handler().keys == old(self).input_handler().keys
                    } else {
                        final(self).input_handler().keys.pressed_from(
                            &old(self).input_handler().keys,
                            state,
                            key,
                        )
                    }
                },
                InputEvent::MouseWheel { vertical } => {
                    &&& final(self).camera() == old(self).camera()
                    &&& final(self).input_handler().flags == (InputFlags {
                        scrolled_up: old(self).input_handler().flags.scrolled_up || vertical
                            > 0,
                        scrolled_down: old(self).input_handler().flags.scrolled_down
                            || vertical < 0,
                        ..old(self).input_handler().flags
                    })
                    &&& final(self).input_handler().keys == old(self).input_handler().keys
                    &&& final(self).input_handler().mouse == old(self).input_handler().mouse
                },
                InputEvent::MouseInput { button, state } => {
                    &&& final(self).camera() == old(self).camera()
                    &&& final(self).input_handler().flags == old(self).input_handler().flags
                    &&& final(self).input_handler().keys == old(self).input_handler().keys
                    &&& final(self).input_handler().mouse.clicked_from(
                        &old(self).input_handler().mouse,
                        state,
                        button,
                    )
                },
                InputEvent::Other => {
                    &&& final(self).camera() == old(self).camera()
                    &&& final(self).input_handler() == old(self).input_handler()
                },
            },
    {
        self.input_handler.process_input(event, &mut self.camera);
    }

    /// Moves the camera to `position`.
    pub fn set_camera_position(&mut self, position: Position)
        ensures
            old(self).wf() ==> final(self).wf(),
            final(self).camera_free_parts_kept(old(self)),
            final(self).quit_flag() == old(self).quit_flag(),
            final(self).camera().camera == (PhysicalCamera {
                position,
                ..old(self).camera().camera
            }),
            final(self).camera().buffer.id == old(self).camera().buffer.id,
    {
        self.camera.set_position(position);
    }

    /// Replaces the scene by the given geometry under one material of the
    /// given colour, creates its buffers anew and rebuilds the scene-data
    /// group over them. Geometry with a triangle that names another
    /// material than the first is turned down, and nothing changes.
    pub fn regenerate_scene(
        &mut self,
        albedo: [u32; 3],
        vertices: Vec<[u32; 4]>,
        tris: Vec<[u32; 4]>,
    ) -> (r: Result<Invalidation, SceneError>)
        requires
            old(self).allocator().has_room(3),
        ensures
            old(self).wf() ==> final(self).wf(),
            r is Ok <==> materials_in_range(tris@, 1),
            r matches Ok(rebuilt) ==> {
                &&& rebuilt == Invalidation::only(ResourceFamily::SceneData)
                &&& final(self).scene().vertices == vertices
                &&& final(self).scene().tris == tris
                &&& final(self).scene().materials@.len() == 1
                &&& final(self).scene().materials@[0].albedo_and_mat@ == seq![
                    albedo[0],
                    albedo[1],
                    albedo[2],
                    crate::scene::TEST_MATERIAL_CLASS,
                ]
                &&& final(self).scene().materials@[0].emission_and_roughness@ == seq![
                    0u32,
                    0u32,
                    0u32,
                    crate::scene::TEST_MATERIAL_ROUGHNESS,
                ]
                &&& final(self).scene().materials@[0].ior@ == seq![
                    crate::scene::TEST_MATERIAL_IOR,
                    0u32,
                    0u32,
                    0u32,
                ]
                &&& final(self).scene().mirrored()
                &&& final(self).scene().material_buffer.id.0 == old(self).allocator().next()
                &&& final(self).scene().vertex_buffer.id.0 == old(self).allocator().next() + 1
                &&& final(self).scene().tri_buffer.id.0 == old(self).allocator().next()
                    + 2
                &&& final(self).allocator().next() == old(self).allocator().next() + 3
                &&& final(self).bind_groups().rebuilt_from(
                    old(self).bind_groups(),
                    rebuilt,
                    final(self).resources(),
                )
                &&& final(self).scene_free_parts_kept(old(self))
            },
            r is Err ==> *final(self) == *old(self),
    {
        match self.scene.setup_test_scene(&mut self.alloc, albedo, vertices, tris) {
            Ok(()) => {
                self.bind_groups.rebuild_scene_bind_group(
                    self.scene.vertex_buffer.id,
                    self.scene.tri_buffer.id,
                    self.scene.material_buffer.id,
                );
                let rebuilt = Invalidation::only(ResourceFamily::SceneData);
                proof {
                    if old(self).wf() {
                        BindGroups::lemma_rebuild_leaves_nothing_stale(
                            old(self).bind_groups,
                            self.bind_groups,
                            rebuilt,
                            old(self).resources(),
                            self.resources(),
                        );
                    }
                }
                Ok(rebuilt)
            },
            Err(error) => Err(error),
        }
    }

    /// The controls that the actions of the next tick work on: the turns of
    /// the wheel are forgotten before the actions are carried out.
    pub open spec fn controls(&self) -> Controls {
        Controls {
            config: *self.config(),
            flags: InputFlags {
                scrolled_up: false,
                scrolled_down: false,
                ..self.input_handler().flags
            },
            fov: self.camera().camera.fov,
            quit: self.quit_flag(),
        }
    }

    /// The actions that are due in the next tick.
    pub open spec fn due(&self) -> Seq<crate::input::handler::Action> {
        due_actions(
            self.input_handler().bindings@,
            self.input_handler().keys.just_pressed@,
            self.input_handler().keys.held@,
            self.input_handler().keys.just_released@,
            self.input_handler().flags,
        )
    }

    /// This is `pre` after one logic tick with a dispatcher whose zoom
    /// offset was `zoom`.
    pub open spec fn ticked_from(&self, pre: &State, zoom: i32) -> bool {
        let settled = after_tick(zoom, pre.controls(), pre.due()).1;
        &&& *self.config() == settled.config
        &&& self.quit_flag() == settled.quit
        &&& self.camera().camera == (PhysicalCamera {
            fov: settled.fov,
            ..pre.camera().camera
        })
        &&& self.camera().built()
        &&& self.camera().uploaded()
        &&& self.camera().buffer.id == pre.camera().buffer.id
        &&& self.input_handler().flags == (InputFlags {
            camera_has_moved: false,
            ..settled.flags
        })
        &&& self.input_handler().bindings == pre.input_handler().bindings
        &&& self.input_handler().context == pre.input_handler().context
        &&& self.input_handler().keys.held == pre.input_handler().keys.held
        &&& self.input_handler().mouse.held == pre.input_handler().mouse.held
        &&& self.input_handler().keys.just_pressed@.len() == 0
        &&& self.input_handler().keys.just_released@.len() == 0
        &&& self.input_handler().mouse.just_clicked@.len() == 0
        &&& self.input_handler().mouse.just_released@.len() == 0
        &&& self.surface_state().frame_info.frame_uniform.global_frame_info@
            == pre.surface_state().frame_info.frame_uniform.global_frame_info@.update(
            1,
            next_since_moved(
                pre.surface_state().frame_info.frame_uniform.since_moved(),
                view_changes(pre.input_handler().flags, pre.due()),
            ),
        )
        &&& self.surface_state().frame_info.frame_buffer
            == pre.surface_state().frame_info.frame_buffer
        &&& self.surface_state().frame_info.scheduler
            == pre.surface_state().frame_info.scheduler
        &&& self.surface_state().frame_info.since_report
            == pre.surface_state().frame_info.since_report
        &&& self.surface_state().frame_info.frame_count
            == pre.surface_state().frame_info.frame_count
        &&& self.surface_state().size == pre.surface_state().size
        &&& self.gpu_context() == pre.gpu_context()
        &&& self.scene() == pre.scene()
        &&& self.bind_groups() == pre.bind_groups()
        &&& self.textures() == pre.textures()
        &&& self.pipelines() == pre.pipelines()
        &&& self.allocator() == pre.allocator()
    }

    /// Runs one logic tick: carries out the actions that are due, forgets
    /// the keys that came down or went up, and counts the tick in the frame
    /// uniform as one in which the view changed or did not. Hands back what
    /// is left for the caller: moving the camera, switching to or from full
    /// screen, generating the scene anew.
    pub fn tick(&mut self, dispatcher: &mut ActionDispatcher) -> (r: DispatchOutcome)
        ensures
            old(self).wf() ==> final(self).wf(),
            final(self).ticked_from(old(self), old(dispatcher).zoom),
            final(dispatcher).zoom == after_tick(
                old(dispatcher).zoom,
                old(self).controls(),
                old(self).due(),
            ).0,
            r == outcome_of(old(self).due()),
    {
        let actions = self.input_handler.get_actions();
        let mut controls = Controls {
            config: self.config,
            flags: self.input_handler.flags,
            fov: self.camera.camera.fov,
            quit: self.quit_flag,
        };
        let outcome = dispatcher.dispatch(actions, &mut controls);
        proof {
            lemma_after_tick_mark(old(dispatcher).zoom, old(self).controls(), old(self).due());
        }
        self.config = controls.config;
        self.quit_flag = controls.quit;
        self.camera.set_fov(controls.fov);
        self.surface_state.frame_info.frame_uniform.record_tick(controls.flags.camera_has_moved);
        self.input_handler.flags = InputFlags { camera_has_moved: false, ..controls.flags };
        outcome
    }

    /// This is `pre` after a window event, answered by `response`.
    pub open spec fn answered_from(
        &self,
        pre: &State,
        event: WindowEvent,
        response: EventResponse,
    ) -> bool {
        let resolution = Invalidation::resolution();
        let nothing = Invalidation::none();
        match event {
            WindowEvent::CloseRequested => response == EventResponse::Exit && *self == *pre,
            WindowEvent::Resized(size) => {
                &&& self.resized_from(pre, size)
                &&& response == EventResponse::Resized(
                    if size.width > 0 && size.height > 0 {
                        resolution
                    } else {
                        nothing
                    },
                )
            },
            WindowEvent::RedrawRequested { surface } => match surface {
                None => response == EventResponse::Draw(pre.frame_commands()) && *self == *pre,
                Some(SurfaceError::Lost) | Some(SurfaceError::Outdated) => {
                    &&& self.resized_from(pre, pre.surface_state().size)
                    &&& response == EventResponse::Rebuilt(
                        if pre.surface_state().size.width > 0
                            && pre.surface_state().size.height > 0 {
                            resolution
                        } else {
                            nothing
                        },
                    )
                },
                Some(SurfaceError::OutOfMemory) | Some(SurfaceError::Other) => response
                    == EventResponse::Fatal && *self == *pre,
                Some(SurfaceError::Timeout) => response == EventResponse::Skipped && *self
                    == *pre,
            },
            WindowEvent::Other => response == EventResponse::Ignored && *self == *pre,
        }
    }

    /// Answers a window event. A close request ends the loop; a new size is
    /// taken over; a redraw gives the commands of the frame, or, where no
    /// image of the surface could be had, a rebuild for the current size
    /// (surface lost or outdated), a skipped frame (timeout) or the end of
    /// the program (out of memory, or any other failure).
    pub fn process_event(&mut self, event: WindowEvent) -> (response: EventResponse)
        requires
            old(self).allocator().has_room(3),
        ensures
            old(self).wf() ==> final(self).wf(),
            final(self).answered_from(old(self), event, response),
    {
        match event {
            WindowEvent::CloseRequested => EventResponse::Exit,
            WindowEvent::Resized(size) => EventResponse::Resized(self.resize(size)),
            WindowEvent::RedrawRequested { surface } => match self.render(surface) {
                Ok(commands) => EventResponse::Draw(commands),
                Err(SurfaceError::Lost) => {
                    let size = self.surface_state.size;
                    EventResponse::Rebuilt(self.resize(size))
                },
                Err(SurfaceError::Outdated) => {
                    let size = self.surface_state.size;
                    EventResponse::Rebuilt(self.resize(size))
                },
                Err(SurfaceError::OutOfMemory) => EventResponse::Fatal,
                Err(SurfaceError::Other) => EventResponse::Fatal,
                Err(SurfaceError::Timeout) => EventResponse::Skipped,
            },
            WindowEvent::Other => EventResponse::Ignored,
        }
    }

    /// Which accumulation buffer a frame reads and which it writes depends
    /// on the parity of the frame counter alone: two states with counters of
    /// the same parity use the same pairing, a state one frame on uses the
    /// other one, a state two frames on the same one again.
    pub proof fn lemma_pairing_follows_parity(a: State, b: State)
        ensures
            ({
                let frame_a = a.surface_state().frame_info.frame_uniform.frame();
                let frame_b = b.surface_state().frame_info.frame_uniform.frame();
                let pairing_a = a.frame_commands().compute.group_3;
                let pairing_b = b.frame_commands().compute.group_3;
                &&& pairing_a == GroupSlot::AReadBWrite || pairing_a == GroupSlot::BReadAWrite
                &&& frame_a % 2 == frame_b % 2 ==> pairing_a == pairing_b
                &&& frame_b == next_frame(frame_a) ==> pairing_a != pairing_b
                &&& frame_b == next_frame(next_frame(frame_a)) ==> pairing_a == pairing_b
            }),
    {
    }

    /// A tick resets the count of ticks since the view changed exactly if
    /// the view changed in it: the pointer turned the camera since the tick
    /// before, or an action of the tick changes the field of view, the scene
    /// or the resolution, or the camera is to move. Any other tick counts
    /// one up, as long as the count has not reached its maximum. No tick
    /// touches the frame counter.
    pub proof fn lemma_tick_counts_changes(pre: State, post: State, zoom: i32)
        requires
            post.ticked_from(&pre, zoom),
        ensures
            ({
                let before = pre.surface_state().frame_info.frame_uniform;
                let after = post.surface_state().frame_info.frame_uniform;
                let changed = view_changes(pre.input_handler().flags, pre.due());
                &&& changed ==> after.since_moved() == 0
                &&& !changed && before.since_moved() < u32::MAX ==> after.since_moved()
                    == before.since_moved() + 1
                &&& after.since_moved() == 0 ==> changed
                &&& after.frame() == before.frame()
                &&& !post.input_handler().flags.camera_has_moved
            }),
    {
    }

    /// A tick whose last action releases the zoom leaves the camera with
    /// the plain field of view of the settings, whatever zoom steps went
    /// before it.
    pub proof fn lemma_unzoom_tick(pre: State, post: State, zoom: i32)
        requires
            post.ticked_from(&pre, zoom),
            pre.due().len() > 0,
            pre.due().last() == crate::input::handler::Action::UnZoom,
        ensures
            post.camera().camera.fov == crate::config::plain_fov(pre.config().fov),
            post.config().fov == pre.config().fov,
            !post.input_handler().flags.is_zoomed,
            after_tick(zoom, pre.controls(), pre.due()).0 == 0,
    {
        let actions = pre.due();
        assert(actions =~= actions.drop_last().push(crate::input::handler::Action::UnZoom));
        crate::input::dispatcher::lemma_unzoom_restores_fov(
            zoom,
            pre.controls(),
            actions.drop_last(),
        );
        lemma_after_tick_mark(zoom, pre.controls(), actions);
    }

    /// Every group that the commands of a frame set conforms to the layout
    /// that the program was built with at that group index, and its
    /// workgroups cover the surface.
    pub proof fn lemma_frame_commands_fit(self)
        requires
            self.wf(),
        ensures
            ({
                let commands = self.frame_commands();
                let groups = self.bind_groups();
                let compute = self.pipelines().compute_pipeline.bind_group_layouts@;
                let raster = self.pipelines().render_pipeline.bind_group_layouts@;
                &&& conforms(groups.spec_group(commands.compute.group_0)@, compute[0]@)
                &&& conforms(groups.spec_group(commands.compute.group_1)@, compute[1]@)
                &&& conforms(groups.spec_group(commands.compute.group_2)@, compute[2]@)
                &&& conforms(groups.spec_group(commands.compute.group_3)@, compute[3]@)
                &&& conforms(groups.spec_group(commands.raster.group_0)@, raster[0]@)
                &&& commands.compute.workgroups_x * crate::frame::TILE_SIZE
                    >= self.surface_state().size.width
                &&& commands.compute.workgroups_y * crate::frame::TILE_SIZE
                    >= self.surface_state().size.height
            }),
    {
        let order = crate::pipelines::compute_group_order();
        assert(order[0] == GroupSlot::Compute);
        assert(order[1] == GroupSlot::Camera);
        assert(order[2] == GroupSlot::Scene);
        assert(order[3] == GroupSlot::AReadBWrite);
        let compute = self.pipelines().compute_pipeline.bind_group_layouts@;
        assert(compute[0]@ == self.bind_groups().spec_layout(order[0])@);
        assert(compute[1]@ == self.bind_groups().spec_layout(order[1])@);
        assert(compute[2]@ == self.bind_groups().spec_layout(order[2])@);
        assert(compute[3]@ == self.bind_groups().spec_layout(order[3])@);
    }

    /// A resize to any size and back to the first leaves a consistent state
    /// at the first size whose image and accumulation buffers are
    /// allocations that did not exist before, whose bindings name these and
    /// none of the replaced ones, and whose layouts and groups have the
    /// shape they had at the start.
    pub proof fn lemma_resize_round_trip(
        start: State,
        detour: State,
        back: State,
        other: PhysicalSize,
    )
        requires
            start.wf(),
            start.surface_state().size.width > 0,
            start.surface_state().size.height > 0,
            detour.resized_from(&start, other),
            back.resized_from(&detour, start.surface_state().size),
        ensures
            detour.wf(),
            back.wf(),
            back.surface_state().size == start.surface_state().size,
            back.textures().sized(start.surface_state().size),
            back.camera().camera == start.camera().camera,
            forall|id: ResourceId|
                back.textures().owns(id) ==> !start.allocator().issued(id)
                    && !detour.allocator().issued(id) && !start.textures().owns(id)
                    && !detour.textures().owns(id),
            forall|id: ResourceId|
                back.bind_groups().references(id) ==> back.live(id)
                    && !start.textures().owns(id) && !detour.textures().owns(id),
            back.bind_groups().scene_bind_group_layout
                == start.bind_groups().scene_bind_group_layout,
            back.bind_groups().camera_bind_group_layout
                == start.bind_groups().camera_bind_group_layout,
            back.bind_groups().compute_bind_group_layout
                == start.bind_groups().compute_bind_group_layout,
            back.bind_groups().fragment_bind_group_layout
                == start.bind_groups().fragment_bind_group_layout,
            back.bind_groups().texture_buffer_bind_group_layout
                == start.bind_groups().texture_buffer_bind_group_layout,
            forall|slot: GroupSlot|
                same_shape(
                    #[trigger] back.bind_groups().spec_group(slot)@,
                    start.bind_groups().spec_group(slot)@,
                ),
    {
        State::lemma_resized_wf(start, detour, other);
        State::lemma_resized_wf(detour, back, start.surface_state().size);
        assert forall|id: ResourceId| back.bind_groups().references(id) implies back.live(id)
            && !start.textures().owns(id) && !detour.textures().owns(id) by {
            back.bind_groups().lemma_bound_references(back.resources(), id);
        }
        let res0 = start.resources();
        let res2 = back.resources();
        assert(start.bind_groups().family_bound_to(
            ResourceFamily::SceneData,
            res0,
        ));
        assert(start.bind_groups().family_bound_to(
            ResourceFamily::CameraUniform,
            res0,
        ));
        assert(start.bind_groups().family_bound_to(
            ResourceFamily::FrameUniform,
            res0,
        ));
        assert(start.bind_groups().family_bound_to(
            ResourceFamily::ComputeOutput,
            res0,
        ));
        assert(start.bind_groups().family_bound_to(
            ResourceFamily::Accumulation,
            res0,
        ));
        assert(start.bind_groups().family_bound_to(
            ResourceFamily::Presentation,
            res0,
        ));
        assert(back.bind_groups().family_bound_to(
            ResourceFamily::SceneData,
            res2,
        ));
        assert(back.bind_groups().family_bound_to(
            ResourceFamily::CameraUniform,
            res2,
        ));
        assert(back.bind_groups().family_bound_to(
            ResourceFamily::FrameUniform,
            res2,
        ));
        assert(back.bind_groups().family_bound_to(
            ResourceFamily::ComputeOutput,
            res2,
        ));
        assert(back.bind_groups().family_bound_to(
            ResourceFamily::Accumulation,
            res2,
        ));
        assert(back.bind_groups().family_bound_to(
            ResourceFamily::Presentation,
            res2,
        ));
        assert forall|slot: GroupSlot|
            same_shape(
                #[trigger] back.bind_groups().spec_group(slot)@,
                start.bind_groups().spec_group(slot)@,
            ) by {
            match slot {
                GroupSlot::Scene => {},
                GroupSlot::Camera => {},
                GroupSlot::Compute => {
                    let a = back.bind_groups().compute_bind_group@;
                    let b = start.bind_groups().compute_bind_group@;
                    assert(a[0] == crate::bind_groups::compute_entries(
                        res2.texture_view,
                        res2.frame_buffer,
                    )[0]);
                    assert(a[1] == crate::bind_groups::compute_entries(
                        res2.texture_view,
                        res2.frame_buffer,
                    )[1]);
                    assert(b[0] == crate::bind_groups::compute_entries(
                        res0.texture_view,
                        res0.frame_buffer,
                    )[0]);
                    assert(b[1] == crate::bind_groups::compute_entries(
                        res0.texture_view,
                        res0.frame_buffer,
                    )[1]);
                },
                GroupSlot::Fragment => {},
                GroupSlot::AReadBWrite => {},
                GroupSlot::BReadAWrite => {},
            }
        }
    }

    /// A resize leaves a consistent state.
    pub proof fn lemma_resized_wf(pre: State, post: State, size: PhysicalSize)
        requires
            pre.wf(),
            post.resized_from(&pre, size),
        ensures
            post.wf(),
    {
        if size.width > 0 && size.height > 0 {
            let marked = Invalidation::resolution();
            BindGroups::lemma_rebuild_leaves_nothing_stale(
                pre.bind_groups,
                post.bind_groups,
                marked,
                pre.resources(),
                post.resources(),
            );
        }
    }

    /// Everything but the camera and the quit request is as in `pre`.
    pub open spec fn camera_free_parts_kept(&self, pre: &State) -> bool {
        &&& self.surface_state() == pre.surface_state()
        &&& self.gpu_context() == pre.gpu_context()
        &&& self.scene() == pre.scene()
        &&& self.config() == pre.config()
        &&& self.bind_groups() == pre.bind_groups()
        &&& self.textures() == pre.textures()
        &&& self.pipelines() == pre.pipelines()
        &&& self.input_handler() == pre.input_handler()
        &&& self.allocator() == pre.allocator()
    }

    /// Moves the camera uniform to a new buffer and rebuilds the camera
    /// group over it. Says which family was rebuilt.
    pub fn reallocate_camera_buffer(&mut self) -> (rebuilt: Invalidation)
        requires
            old(self).allocator().has_room(1),
        ensures
            old(self).wf() ==> final(self).wf(),
            rebuilt == Invalidation::only(ResourceFamily::CameraUniform),
            final(self).camera().buffer.id.0 == old(self).allocator().next(),
            final(self).allocator().next() == old(self).allocator().next() + 1,
            final(self).camera().camera == old(self).camera().camera,
            final(self).camera().uniform == old(self).camera().uniform,
            final(self).bind_groups().rebuilt_from(
                old(self).bind_groups(),
                rebuilt,
                final(self).resources(),
            ),
            final(self).surface_state() == old(self).surface_state(),
            final(self).gpu_context() == old(self).gpu_context(),
            final(self).scene() == old(self).scene(),
            final(self).config() == old(self).config(),
            final(self).textures() == old(self).textures(),
            final(self).pipelines() == old(self).pipelines(),
            final(self).input_handler() == old(self).input_handler(),
            final(self).quit_flag() == old(self).quit_flag(),
    {
        self.camera.reallocate_buffer(&mut self.alloc);
        self.bind_groups.rebuild_camera_bind_group(self.camera.buffer.id);
        let rebuilt = Invalidation::only(ResourceFamily::CameraUniform);
        proof {
            if old(self).wf() {
                BindGroups::lemma_rebuild_leaves_nothing_stale(
                    old(self).bind_groups,
                    self.bind_groups,
                    rebuilt,
                    old(self).resources(),
                    self.resources(),
                );
            }
        }
        rebuilt
    }

    /// Everything but the scene and the bindings over it is as in `pre`.
    pub open spec fn scene_free_parts_kept(&self, pre: &State) -> bool {
        &&& self.surface_state() == pre.surface_state()
        &&& self.gpu_context() == pre.gpu_context()
        &&& self.camera() == pre.camera()
        &&& self.config() == pre.config()
        &&& self.textures() == pre.textures()
        &&& self.pipelines() == pre.pipelines()
        &&& self.input_handler() == pre.input_handler()
        &&& self.quit_flag() == pre.quit_flag()
    }
}

} // verus!
