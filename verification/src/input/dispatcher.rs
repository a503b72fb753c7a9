//! What the actions of one tick do.
//!
//! The dispatcher works on the settings and switches alone. Whatever needs
//! the view basis, the window or a file (moving the camera, toggling full
//! screen, loading a scene) is handed back to the caller as a request.

use vstd::prelude::*;
use crate::config::{plain_fov, zoomed_fov, StateConfigs, ZOOM_STEP};
use crate::input::handler::{Action, InputFlags};

verus! {

/// The part of the renderer's state that actions read and change.
#[derive(Clone, Copy, PartialEq, Eq, Debug, Structural)]
pub struct Controls {
    pub config: StateConfigs,
    pub flags: InputFlags,
    /// Vertical field of view of the camera, in units of 1e-8 radians.
    pub fov: i128,
    pub quit: bool,
}

/// How often each direction was asked for in a tick.
#[derive(Clone, Copy, PartialEq, Eq, Debug, Structural)]
pub struct Movement {
    pub forward: usize,
    pub back: usize,
    pub right: usize,
    pub left: usize,
    pub up: usize,
    pub down: usize,
}

impl Movement {
    /// Whether the directions asked for do not cancel out.
    pub open spec fn spec_is_moving(&self) -> bool {
        self.forward != self.back || self.right != self.left || self.up != self.down
    }

    /// Whether the directions asked for do not cancel out.
    #[verifier::when_used_as_spec(spec_is_moving)]
    pub fn is_moving(&self) -> (r: bool)
        ensures
            r == self.spec_is_moving(),
    {
        self.forward != self.back || self.right != self.left || self.up != self.down
    }
}

/// What is left for the caller to do after the actions of a tick.
#[derive(Clone, Copy, PartialEq, Eq, Debug, Structural)]
pub struct DispatchOutcome {
    /// The camera is to move by one step of the current speed along the sum
    /// of the directions, if they do not cancel out.
    pub movement: Movement,
    /// Times the window is to switch between windowed and full screen.
    pub fullscreen_toggles: usize,
    /// Times the scene is to be generated anew.
    pub scene_regenerations: usize,
}

/// Carries the zoom offset from tick to tick.
#[derive(Clone, Copy, PartialEq, Eq, Debug, Structural)]
pub struct ActionDispatcher {
    /// Offset on the zoom factor, in ten-thousandths.
    pub zoom: i32,
}

/// The zoom offset one step further in, short of overflowing.
pub open spec fn zoom_in(zoom: i32) -> i32 {
    if zoom > i32::MAX - ZOOM_STEP {
        i32::MAX
    } else {
        (zoom + ZOOM_STEP) as i32
    }
}

/// The zoom offset one step further out, short of overflowing.
pub open spec fn zoom_out(zoom: i32) -> i32 {
    if zoom < i32::MIN + ZOOM_STEP {
        i32::MIN
    } else {
        (zoom - ZOOM_STEP) as i32
    }
}

/// Whether an action changes what the camera sees, whatever else happens in
/// the tick: a change of the field of view, of the scene or of the output
/// resolution.
pub open spec fn changes_view(action: Action) -> bool {
    action is Zoom || action is UnZoom || action is ZoomIn || action is ZoomOut || action is Test
        || action is Fullscreen
}

/// Whether one of the actions changes what the camera sees.
pub open spec fn any_changes_view(actions: Seq<Action>) -> bool {
    exists|i: int| 0 <= i < actions.len() && changes_view(#[trigger] actions[i])
}

/// How often `action` occurs among `actions`.
pub open spec fn count_of(actions: Seq<Action>, action: Action) -> nat
    decreases actions.len(),
{
    if actions.len() == 0 {
        0
    } else {
        count_of(actions.drop_last(), action) + if actions.last() == action {
            1nat
        } else {
            0nat
        }
    }
}

/// Zoom offset and controls after one action.
pub open spec fn after_action(zoom: i32, controls: Controls, action: Action) -> (i32, Controls) {
    let changed = Controls {
        flags: InputFlags { camera_has_moved: true, ..controls.flags },
        ..controls
    };
    match action {
        Action::ExitProgram => (zoom, Controls { quit: true, ..controls }),
        Action::Fullscreen => (zoom, changed),
        Action::Test => (zoom, changed),
        Action::Zoom => (
            zoom,
            Controls {
                fov: zoomed_fov(controls.config.fov, controls.config.base_zoom, zoom) as i128,
                flags: InputFlags { is_zoomed: true, ..changed.flags },
                ..changed
            },
        ),
        Action::UnZoom => (
            0,
            Controls {
                fov: plain_fov(controls.config.fov) as i128,
                flags: InputFlags { is_zoomed: false, ..changed.flags },
                ..changed
            },
        ),
        Action::ZoomIn => (
            zoom_in(zoom),
            Controls {
                fov: zoomed_fov(
                    controls.config.fov,
                    controls.config.base_zoom,
                    zoom_in(zoom),
                ) as i128,
                ..changed
            },
        ),
        Action::ZoomOut => (
            zoom_out(zoom),
            Controls {
                fov: zoomed_fov(
                    controls.config.fov,
                    controls.config.base_zoom,
                    zoom_out(zoom),
                ) as i128,
                ..changed
            },
        ),
        Action::SetFlySpeed(speed) => (
            zoom,
            Controls { config: StateConfigs { speed, ..controls.config }, ..controls },
        ),
        _ => (zoom, controls),
    }
}

/// Zoom offset and controls after the actions, first to last, movement not
/// counted.
pub open spec fn after_actions(zoom: i32, controls: Controls, actions: Seq<Action>) -> (
    i32,
    Controls,
)
    decreases actions.len(),
{
    if actions.len() == 0 {
        (zoom, controls)
    } else {
        let before = after_actions(zoom, controls, actions.drop_last());
        after_action(before.0, before.1, actions.last())
    }
}

/// The directions asked for by the actions.
pub open spec fn movement_of(actions: Seq<Action>) -> Movement {
    Movement {
        forward: count_of(actions, Action::MoveForward) as usize,
        back: count_of(actions, Action::MoveBack) as usize,
        right: count_of(actions, Action::MoveRight) as usize,
        left: count_of(actions, Action::MoveLeft) as usize,
        up: count_of(actions, Action::MoveUp) as usize,
        down: count_of(actions, Action::MoveDown) as usize,
    }
}

/// What is left for the caller after the actions.
pub open spec fn outcome_of(actions: Seq<Action>) -> DispatchOutcome {
    DispatchOutcome {
        movement: movement_of(actions),
        fullscreen_toggles: count_of(actions, Action::Fullscreen) as usize,
        scene_regenerations: count_of(actions, Action::Test) as usize,
    }
}

/// Zoom offset and controls after a whole tick: the actions one by one, then
/// the mark that the view has changed if the camera is to move.
pub open spec fn after_tick(zoom: i32, controls: Controls, actions: Seq<Action>) -> (
    i32,
    Controls,
) {
    let settled = after_actions(zoom, controls, actions);
    if movement_of(actions).spec_is_moving() {
        (
            settled.0,
            Controls {
                flags: InputFlags { camera_has_moved: true, ..settled.1.flags },
                ..settled.1
            },
        )
    } else {
        settled
    }
}

/// Whether the view counts as changed at the end of a tick: the mark was
/// set before the tick (the pointer turned the camera), or one of the
/// actions changes the view, or the camera is to move.
pub open spec fn view_changes(flags: InputFlags, actions: Seq<Action>) -> bool {
    flags.camera_has_moved || any_changes_view(actions) || movement_of(actions).spec_is_moving()
}

/// The actions of a tick leave the field of view in the settings alone, and
/// set the mark that the view has changed exactly if it was set before or
/// one of them changes the view.
pub proof fn lemma_after_actions(zoom: i32, controls: Controls, actions: Seq<Action>)
    ensures
        after_actions(zoom, controls, actions).1.config.fov == controls.config.fov,
        after_actions(zoom, controls, actions).1.config.base_zoom == controls.config.base_zoom,
        after_actions(zoom, controls, actions).1.flags.camera_has_moved == (
        controls.flags.camera_has_moved || any_changes_view(actions)),
        after_actions(zoom, controls, actions).1.flags.scrolled_up == controls.flags.scrolled_up,
        after_actions(zoom, controls, actions).1.flags.scrolled_down
            == controls.flags.scrolled_down,
    decreases actions.len(),
{
    if actions.len() > 0 {
        let front = actions.drop_last();
        lemma_after_actions(zoom, controls, front);
        if any_changes_view(front) {
            let i = choose|i: int| 0 <= i < front.len() && changes_view(#[trigger] front[i]);
            assert(changes_view(actions[i]));
        }
        if changes_view(actions.last()) {
            assert(changes_view(actions[actions.len() - 1]));
        }
        if any_changes_view(actions) {
            let i = choose|i: int| 0 <= i < actions.len() && changes_view(#[trigger] actions[i]);
            if i < front.len() {
                assert(changes_view(front[i]));
            }
        }
    }
}

/// At the end of a tick the mark that the view has changed is set exactly
/// if [`view_changes`] says so.
pub proof fn lemma_after_tick_mark(zoom: i32, controls: Controls, actions: Seq<Action>)
    ensures
        after_tick(zoom, controls, actions).1.flags.camera_has_moved == view_changes(
            controls.flags,
            actions,
        ),
        after_tick(zoom, controls, actions).1.config.fov == controls.config.fov,
{
    lemma_after_actions(zoom, controls, actions);
}

/// Releasing the zoom restores the plain field of view and clears the zoom
/// offset, whatever zoom steps and other actions went before it, in the
/// same tick or in earlier ones.
pub proof fn lemma_unzoom_restores_fov(zoom: i32, controls: Controls, before: Seq<Action>)
    ensures
        after_tick(zoom, controls, before.push(Action::UnZoom)).0 == 0,
        after_tick(zoom, controls, before.push(Action::UnZoom)).1.fov == plain_fov(
            controls.config.fov,
        ),
        !after_tick(zoom, controls, before.push(Action::UnZoom)).1.flags.is_zoomed,
{
    let actions = before.push(Action::UnZoom);
    assert(actions.drop_last() =~= before);
    lemma_after_actions(zoom, controls, before);
    lemma_fov_fits(controls.config.fov, controls.config.base_zoom, zoom);
}

/// A tick of zoom steps inwards and nothing else, from any offset that
/// leaves room for them: the offset grows by one step for each, and the
/// field of view is the plain one times the zoom factor with that offset.
pub proof fn lemma_zoom_steps(zoom: i32, controls: Controls, steps: Seq<Action>)
    requires
        forall|i: int| 0 <= i < steps.len() ==> steps[i] == Action::ZoomIn,
        steps.len() > 0,
        zoom + steps.len() * ZOOM_STEP <= i32::MAX,
    ensures
        after_tick(zoom, controls, steps).0 == zoom + steps.len() * ZOOM_STEP,
        after_tick(zoom, controls, steps).1.fov == zoomed_fov(
            controls.config.fov,
            controls.config.base_zoom,
            (zoom + steps.len() * ZOOM_STEP) as i32,
        ),
        after_tick(zoom, controls, steps).1.config == controls.config,
    decreases steps.len(),
{
    lemma_no_movement(steps);
    lemma_zoom_steps_settled(zoom, controls, steps);
}

proof fn lemma_zoom_steps_settled(zoom: i32, controls: Controls, steps: Seq<Action>)
    requires
        forall|i: int| 0 <= i < steps.len() ==> steps[i] == Action::ZoomIn,
        zoom + steps.len() * ZOOM_STEP <= i32::MAX,
    ensures
        after_actions(zoom, controls, steps).0 == zoom + steps.len() * ZOOM_STEP,
        steps.len() > 0 ==> after_actions(zoom, controls, steps).1.fov == zoomed_fov(
            controls.config.fov,
            controls.config.base_zoom,
            (zoom + steps.len() * ZOOM_STEP) as i32,
        ),
        after_actions(zoom, controls, steps).1.config == controls.config,
    decreases steps.len(),
{
    if steps.len() > 0 {
        let front = steps.drop_last();
        assert(steps.last() == steps[steps.len() - 1]);
        lemma_zoom_steps_settled(zoom, controls, front);
        let reached = (zoom + steps.len() * ZOOM_STEP) as i32;
        assert(zoom_in(after_actions(zoom, controls, front).0) == reached);
        lemma_fov_fits(controls.config.fov, controls.config.base_zoom, reached);
    }
}

/// Every field of view that the settings can give fits the camera's field.
proof fn lemma_fov_fits(base_fov: u32, base_zoom: u32, zoom: i32)
    ensures
        zoomed_fov(base_fov, base_zoom, zoom) as i128 == zoomed_fov(base_fov, base_zoom, zoom),
        plain_fov(base_fov) as i128 == plain_fov(base_fov),
{
    let factor = base_zoom + zoom;
    assert(-0x1_0000_0000 * 0x1_0000_0000 <= base_fov * factor <= 0x1_0000_0000 * 0x2_0000_0000)
        by (nonlinear_arith)
        requires
            0 <= base_fov <= 0xffff_ffff,
            -0x8000_0000 <= factor <= 0x1_7fff_ffff,
    ;
    assert(0 <= base_fov * 10_000 <= 0xffff_ffff * 10_000) by (nonlinear_arith)
        requires
            0 <= base_fov <= 0xffff_ffff,
    ;
}

/// Actions other than the six movements ask for no direction.
proof fn lemma_no_movement(actions: Seq<Action>)
    requires
        forall|i: int|
            0 <= i < actions.len() ==> !(#[trigger] actions[i] is MoveForward) && !(actions[i]
                is MoveBack) && !(actions[i] is MoveRight) && !(actions[i] is MoveLeft) && !(
            actions[i] is MoveUp) && !(actions[i] is MoveDown),
    ensures
        !movement_of(actions).spec_is_moving(),
        count_of(actions, Action::MoveForward) == 0,
        count_of(actions, Action::MoveBack) == 0,
        count_of(actions, Action::MoveRight) == 0,
        count_of(actions, Action::MoveLeft) == 0,
        count_of(actions, Action::MoveUp) == 0,
        count_of(actions, Action::MoveDown) == 0,
    decreases actions.len(),
{
    if actions.len() > 0 {
        assert(actions.last() == actions[actions.len() - 1]);
        lemma_no_movement(actions.drop_last());
    }
}

/// No action occurs more often than there are actions.
pub proof fn lemma_count_bounded(actions: Seq<Action>, action: Action)
    ensures
        count_of(actions, action) <= actions.len(),
    decreases actions.len(),
{
    if actions.len() > 0 {
        lemma_count_bounded(actions.drop_last(), action);
    }
}

impl ActionDispatcher {
    /// A dispatcher without zoom offset.
    pub fn new() -> (r: ActionDispatcher)
        ensures
            r.zoom == 0,
    {
        ActionDispatcher { zoom: 0 }
    }

    /// Carries out the actions of one tick, first to last, on the controls,
    /// and hands back what needs the camera basis, the window or the scene
    /// source.
    pub fn dispatch(&mut self, actions: Vec<Action>, controls: &mut Controls) -> (r:
        DispatchOutcome)
        ensures
            (final(self).zoom, *final(controls)) == after_tick(
                old(self).zoom,
                *old(controls),
                actions@,
            ),
            r == outcome_of(actions@),
    {
        let mut movement = Movement { forward: 0, back: 0, right: 0, left: 0, up: 0, down: 0 };
        let mut fullscreen_toggles: usize = 0;
        let mut scene_regenerations: usize = 0;
        let mut i: usize = 0;
        assert(actions@.take(0) =~= Seq::<Action>::empty());
        while i < actions.len()
            invariant
                i <= actions.len(),
                (self.zoom, *controls) == after_actions(
                    old(self).zoom,
                    *old(controls),
                    actions@.take(i as int),
                ),
                movement == movement_of(actions@.take(i as int)),
                fullscreen_toggles == count_of(actions@.take(i as int), Action::Fullscreen),
                scene_regenerations == count_of(actions@.take(i as int), Action::Test),
            decreases actions.len() - i,
        {
            let action = actions[i];
            proof {
                let next = actions@.take(i + 1);
                assert(next.drop_last() =~= actions@.take(i as int));
                assert(next.last() == action);
                lemma_count_bounded(next, Action::MoveForward);
                lemma_count_bounded(next, Action::MoveBack);
                lemma_count_bounded(next, Action::MoveRight);
                lemma_count_bounded(next, Action::MoveLeft);
                lemma_count_bounded(next, Action::MoveUp);
                lemma_count_bounded(next, Action::MoveDown);
                lemma_count_bounded(next, Action::Fullscreen);
                lemma_count_bounded(next, Action::Test);
                lemma_count_bounded(next.drop_last(), Action::MoveForward);
                lemma_count_bounded(next.drop_last(), Action::MoveBack);
                lemma_count_bounded(next.drop_last(), Action::MoveRight);
                lemma_count_bounded(next.drop_last(), Action::MoveLeft);
                lemma_count_bounded(next.drop_last(), Action::MoveUp);
                lemma_count_bounded(next.drop_last(), Action::MoveDown);
                lemma_count_bounded(next.drop_last(), Action::Fullscreen);
                lemma_count_bounded(next.drop_last(), Action::Test);
            }
            match action {
                Action::MoveForward => {
                    movement.forward = movement.forward + 1;
                },
                Action::MoveBack => {
                    movement.back = movement.back + 1;
                },
                Action::MoveRight => {
                    movement.right = movement.right + 1;
                },
                Action::MoveLeft => {
                    movement.left = movement.left + 1;
                },
                Action::MoveUp => {
                    movement.up = movement.up + 1;
                },
                Action::MoveDown => {
                    movement.down = movement.down + 1;
                },
                Action::ExitProgram => {
                    controls.quit = true;
                },
                Action::Fullscreen => {
                    fullscreen_toggles = fullscreen_toggles + 1;
                    controls.flags.camera_has_moved = true;
                },
                Action::Zoom => {
                    controls.fov = controls.config.effective_fov(self.zoom);
                    controls.flags.is_zoomed = true;
                    controls.flags.camera_has_moved = true;
                },
                Action::UnZoom => {
                    controls.fov = controls.config.base_fov();
                    controls.flags.is_zoomed = false;
                    self.zoom = 0;
                    controls.flags.camera_has_moved = true;
                },
                Action::ZoomIn => {
                    self.zoom = if self.zoom > i32::MAX - ZOOM_STEP {
                        i32::MAX
                    } else {
                        self.zoom + ZOOM_STEP
                    };
                    controls.fov = controls.config.effective_fov(self.zoom);
                    controls.flags.camera_has_moved = true;
                },
                Action::ZoomOut => {
                    self.zoom = if self.zoom < i32::MIN + ZOOM_STEP {
                        i32::MIN
                    } else {
                        self.zoom - ZOOM_STEP
                    };
                    controls.fov = controls.config.effective_fov(self.zoom);
                    controls.flags.camera_has_moved = true;
                },
                Action::SetFlySpeed(speed) => {
                    controls.config.speed = speed;
                },
                Action::Test => {
                    scene_regenerations = scene_regenerations + 1;
                    controls.flags.camera_has_moved = true;
                },
                Action::NoAction => {},
            }
            i = i + 1;
        }
        assert(actions@.take(i as int) =~= actions@);
        if movement.is_moving() {
            controls.flags.camera_has_moved = true;
        }
        DispatchOutcome { movement, fullscreen_toggles, scene_regenerations }
    }
}

} // verus!
