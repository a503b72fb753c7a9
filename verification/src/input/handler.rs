//! The input tables: which keys and buttons are down, which came down or went
//! up since the last tick, and which actions the keys are bound to.
//!
//! Keys are named by their USB HID usage number, mouse buttons by a number of
//! the embedding program's choice.

use vstd::prelude::*;
use std::collections::HashMap;
use crate::camera::Camera;
use crate::input::key_set::{with_key, without_key, KeySet};

verus! {

pub const KEY_A: u32 = 0x04;

pub const KEY_C: u32 = 0x06;

pub const KEY_D: u32 = 0x07;

pub const KEY_S: u32 = 0x16;

pub const KEY_T: u32 = 0x17;

pub const KEY_W: u32 = 0x1a;

pub const KEY_ESCAPE: u32 = 0x29;

pub const KEY_SPACE: u32 = 0x2c;

pub const KEY_F11: u32 = 0x44;

pub const KEY_CONTROL_LEFT: u32 = 0xe0;

pub const KEY_SHIFT_LEFT: u32 = 0xe1;

/// Fly speed while the speed key is held (0.1, in ten-thousandths).
pub const FAST_FLY_SPEED: u32 = 1_000;

/// Fly speed after the speed key went up (0.04, in ten-thousandths).
pub const NORMAL_FLY_SPEED: u32 = 400;

/// What a key can ask for.
#[derive(Clone, Copy, PartialEq, Eq, Debug, Structural)]
pub enum Action {
    MoveForward,
    MoveBack,
    MoveRight,
    MoveLeft,
    MoveUp,
    MoveDown,
    ExitProgram,
    Zoom,
    UnZoom,
    ZoomIn,
    ZoomOut,
    Test,
    Fullscreen,
    /// Sets the distance travelled per tick, in ten-thousandths.
    SetFlySpeed(u32),
    /// Asks for nothing.
    NoAction,
}

/// The situation that decides what keys mean.
#[derive(Clone, Copy, PartialEq, Eq, Debug, Structural)]
pub enum Context {
    InGame,
}

/// Whether a key or button went down or up.
#[derive(Clone, Copy, PartialEq, Eq, Debug, Structural)]
pub enum ElementState {
    Pressed,
    Released,
}

/// An event of the window system, reduced to what the input tables read.
#[derive(Clone, Copy, PartialEq, Eq, Debug, Structural)]
pub enum InputEvent {
    /// A key went down or up; `repeat` marks the repeats of a key held down.
    KeyboardInput { key: u32, state: ElementState, repeat: bool },
    /// The wheel turned by whole lines: upwards if `vertical` is positive,
    /// downwards if it is negative.
    MouseWheel { vertical: i32 },
    /// A mouse button went down or up.
    MouseInput { button: u32, state: ElementState },
    /// The pointer moved, by thousandths of a pixel.
    MouseMotion { dx: i64, dy: i64 },
    /// Anything else.
    Other,
}

/// Switches that input sets and the tick loop reads.
#[derive(Clone, Copy, PartialEq, Eq, Debug, Structural)]
pub struct InputFlags {
    pub is_zoomed: bool,
    pub scrolled_up: bool,
    pub scrolled_down: bool,
    pub camera_has_moved: bool,
}

impl InputFlags {
    /// All switches off.
    pub fn default() -> (r: InputFlags)
        ensures
            r == (InputFlags {
                is_zoomed: false,
                scrolled_up: false,
                scrolled_down: false,
                camera_has_moved: false,
            }),
    {
        InputFlags {
            is_zoomed: false,
            scrolled_down: false,
            scrolled_up: false,
            camera_has_moved: false,
        }
    }
}

/// Mouse buttons that are down, and those that came down or went up since the
/// last tick.
#[derive(Debug)]
pub struct Mouse {
    pub just_clicked: KeySet,
    pub just_released: KeySet,
    pub held: KeySet,
}

impl Mouse {
    /// This is `pre` after `button` went down or up.
    pub open spec fn clicked_from(&self, pre: &Mouse, state: ElementState, button: u32) -> bool {
        match state {
            ElementState::Pressed => {
                &&& self.held@ == with_key(pre.held@, button)
                &&& self.just_clicked@ == if pre.held@.contains(button) {
                    pre.just_clicked@
                } else {
                    with_key(pre.just_clicked@, button)
                }
                &&& self.just_released@ == pre.just_released@
            },
            ElementState::Released => {
                &&& self.held@ == without_key(pre.held@, button)
                &&& self.just_clicked@ == pre.just_clicked@
                &&& self.just_released@ == with_key(pre.just_released@, button)
            },
        }
    }

    /// No button down, none seen.
    pub fn new() -> (r: Mouse)
        ensures
            r.just_clicked@.len() == 0,
            r.just_released@.len() == 0,
            r.held@.len() == 0,
    {
        Mouse { just_clicked: KeySet::new(), just_released: KeySet::new(), held: KeySet::new() }
    }

    /// Takes note of a button that went down or up. A button that is down
    /// already does not count as clicked again.
    pub fn mouse_click(&mut self, state: ElementState, mouse_button: u32)
        ensures
            final(self).clicked_from(old(self), state, mouse_button),
    {
        match state {
            ElementState::Pressed => {
                if self.held.insert(mouse_button) {
                    self.just_clicked.insert(mouse_button);
                }
            },
            ElementState::Released => {
                self.held.remove(mouse_button);
                self.just_released.insert(mouse_button);
            },
        }
    }
}

/// Keys that are down, and those that came down or went up since the last
/// tick.
#[derive(Debug)]
pub struct Keys {
    pub just_pressed: KeySet,
    pub just_released: KeySet,
    pub held: KeySet,
}

impl Keys {
    /// This is `pre` after `key` went down or up.
    pub open spec fn pressed_from(&self, pre: &Keys, state: ElementState, key: u32) -> bool {
        match state {
            ElementState::Pressed => {
                &&& self.held@ == with_key(pre.held@, key)
                &&& self.just_pressed@ == if pre.held@.contains(key) {
                    pre.just_pressed@
                } else {
                    with_key(pre.just_pressed@, key)
                }
                &&& self.just_released@ == pre.just_released@
            },
            ElementState::Released => {
                &&& self.held@ == without_key(pre.held@, key)
                &&& self.just_pressed@ == pre.just_pressed@
                &&& self.just_released@ == with_key(pre.just_released@, key)
            },
        }
    }

    /// No key down, none seen.
    pub fn new() -> (r: Keys)
        ensures
            r.just_pressed@.len() == 0,
            r.just_released@.len() == 0,
            r.held@.len() == 0,
    {
        Keys { just_pressed: KeySet::new(), just_released: KeySet::new(), held: KeySet::new() }
    }

    /// Takes note of a key that went down or up. A key that is down already
    /// does not count as pressed again.
    pub fn key_press(&mut self, state: ElementState, key_code: u32)
        ensures
            final(self).pressed_from(old(self), state, key_code),
    {
        match state {
            ElementState::Pressed => {
                if self.held.insert(key_code) {
                    self.just_pressed.insert(key_code);
                }
            },
            ElementState::Released => {
                self.held.remove(key_code);
                self.just_released.insert(key_code);
            },
        }
    }
}

/// A binding that acts while the key is held.
pub open spec fn while_held(action: Action) -> [Action; 3] {
    [Action::NoAction, action, Action::NoAction]
}

/// A binding that acts once when the key goes down.
pub open spec fn on_press(action: Action) -> [Action; 3] {
    [action, Action::NoAction, Action::NoAction]
}

/// The bindings of a new handler.
pub open spec fn default_bindings() -> Map<u32, [Action; 3]> {
    Map::<u32, [Action; 3]>::empty().insert(KEY_W, while_held(Action::MoveForward)).insert(
        KEY_A,
        while_held(Action::MoveLeft),
    ).insert(KEY_S, while_held(Action::MoveBack)).insert(
        KEY_D,
        while_held(Action::MoveRight),
    ).insert(KEY_SPACE, while_held(Action::MoveUp)).insert(
        KEY_SHIFT_LEFT,
        while_held(Action::MoveDown),
    ).insert(KEY_ESCAPE, on_press(Action::ExitProgram)).insert(
        KEY_F11,
        on_press(Action::Fullscreen),
    ).insert(KEY_C, [Action::Zoom, Action::NoAction, Action::UnZoom]).insert(
        KEY_T,
        on_press(Action::Test),
    ).insert(
        KEY_CONTROL_LEFT,
        [
            Action::SetFlySpeed(FAST_FLY_SPEED),
            Action::NoAction,
            Action::SetFlySpeed(NORMAL_FLY_SPEED),
        ],
    )
}

/// The actions in slot `slot` of the bindings of `keys`, in the order of the
/// keys; keys without a binding give none.
pub open spec fn slot_actions(bindings: Map<u32, [Action; 3]>, keys: Seq<u32>, slot: int) -> Seq<
    Action,
>
    decreases keys.len(),
{
    if keys.len() == 0 {
        Seq::empty()
    } else {
        let front = slot_actions(bindings, keys.drop_last(), slot);
        if bindings.contains_key(keys.last()) {
            front.push(bindings[keys.last()][slot])
        } else {
            front
        }
    }
}

/// The zoom steps that the wheel asks for: none unless zooming, else one
/// step in for a turn upwards, then one step out for a turn downwards.
pub open spec fn wheel_actions(flags: InputFlags) -> Seq<Action> {
    let zoom_in = if flags.is_zoomed && flags.scrolled_up {
        seq![Action::ZoomIn]
    } else {
        Seq::empty()
    };
    let zoom_out = if flags.is_zoomed && flags.scrolled_down {
        seq![Action::ZoomOut]
    } else {
        Seq::empty()
    };
    zoom_in + zoom_out
}

/// The actions that are due in a tick: for the keys that came down their
/// first slot, for the keys that are down their second, for the keys that
/// went up their third, then the zoom steps of the wheel.
pub open spec fn due_actions(
    bindings: Map<u32, [Action; 3]>,
    just_pressed: Seq<u32>,
    held: Seq<u32>,
    just_released: Seq<u32>,
    flags: InputFlags,
) -> Seq<Action> {
    slot_actions(bindings, just_pressed, 0) + slot_actions(bindings, held, 1) + slot_actions(
        bindings,
        just_released,
        2,
    ) + wheel_actions(flags)
}

/// Key bindings, input tables and switches.
#[derive(Debug)]
pub struct InputHandler {
    pub bindings: HashMap<u32, [Action; 3]>,
    pub flags: InputFlags,
    pub context: Context,
    pub keys: Keys,
    pub mouse: Mouse,
}

fn collect_slot(
    bindings: &HashMap<u32, [Action; 3]>,
    keys: &KeySet,
    slot: usize,
    actions: &mut Vec<Action>,
)
    requires
        slot < 3,
    ensures
        final(actions)@ == old(actions)@ + slot_actions(bindings@, keys@, slot as int),
{
    broadcast use vstd::std_specs::hash::group_hash_axioms;

    let n = keys.len();
    let mut i: usize = 0;
    assert(keys@.take(0) =~= Seq::<u32>::empty());
    assert(actions@ =~= old(actions)@ + slot_actions(bindings@, keys@.take(0), slot as int));
    while i < n
        invariant
            i <= n,
            n == keys@.len(),
            slot < 3,
            actions@ == old(actions)@ + slot_actions(bindings@, keys@.take(i as int), slot as int),
        decreases n - i,
    {
        let key = keys.get(i);
        proof {
            let next = keys@.take(i + 1);
            assert(next.drop_last() =~= keys@.take(i as int));
            assert(next.last() == key);
        }
        match bindings.get(&key) {
            Some(action) => {
                actions.push(action[slot]);
                assert(actions@ =~= old(actions)@ + slot_actions(
                    bindings@,
                    keys@.take(i + 1),
                    slot as int,
                ));
            },
            None => {},
        }
        i = i + 1;
    }
    assert(keys@.take(n as int) =~= keys@);
}

impl InputHandler {
    /// The handler of a fresh start: the default bindings, nothing down, all
    /// switches off.
    pub fn new_defaults() -> (r: InputHandler)
        ensures
            r.bindings@ == default_bindings(),
            r.context == Context::InGame,
            r.flags == (InputFlags {
                is_zoomed: false,
                scrolled_up: false,
                scrolled_down: false,
                camera_has_moved: false,
            }),
            r.keys.just_pressed@.len() == 0,
            r.keys.just_released@.len() == 0,
            r.keys.held@.len() == 0,
            r.mouse.just_clicked@.len() == 0,
            r.mouse.just_released@.len() == 0,
            r.mouse.held@.len() == 0,
    {
        broadcast use vstd::std_specs::hash::group_hash_axioms;

        let mut bindings: HashMap<u32, [Action; 3]> = HashMap::new();
        let flags = InputFlags::default();
        bindings.insert(KEY_W, [Action::NoAction, Action::MoveForward, Action::NoAction]);
        bindings.insert(KEY_A, [Action::NoAction, Action::MoveLeft, Action::NoAction]);
        bindings.insert(KEY_S, [Action::NoAction, Action::MoveBack, Action::NoAction]);
        bindings.insert(KEY_D, [Action::NoAction, Action::MoveRight, Action::NoAction]);
        bindings.insert(KEY_SPACE, [Action::NoAction, Action::MoveUp, Action::NoAction]);
        bindings.insert(KEY_SHIFT_LEFT, [Action::NoAction, Action::MoveDown, Action::NoAction]);
        bindings.insert(KEY_ESCAPE, [Action::ExitProgram, Action::NoAction, Action::NoAction]);
        bindings.insert(KEY_F11, [Action::Fullscreen, Action::NoAction, Action::NoAction]);
        bindings.insert(KEY_C, [Action::Zoom, Action::NoAction, Action::UnZoom]);
        bindings.insert(KEY_T, [Action::Test, Action::NoAction, Action::NoAction]);
        bindings.insert(
            KEY_CONTROL_LEFT,
            [
                Action::SetFlySpeed(FAST_FLY_SPEED),
                Action::NoAction,
                Action::SetFlySpeed(NORMAL_FLY_SPEED),
            ],
        );
        InputHandler {
            flags,
            bindings,
            context: Context::InGame,
            keys: Keys::new(),
            mouse: Mouse::new(),
        }
    }

    /// Takes note of one event. Key repeats and unknown events change
    /// nothing; pointer motion turns the camera at once.
    pub fn process_input(&mut self, process_event: &InputEvent, camera: &mut Camera)
        ensures
            final(self).bindings == old(self).bindings,
            final(self).context == old(self).context,
            match *process_event {
                InputEvent::KeyboardInput { key, state, repeat } => {
                    &&& if repeat {
                        final(self).keys == old(self).keys
                    } else {
                        final(self).keys.pressed_from(&old(self).keys, state, key)
                    }
                    &&& final(self).mouse == old(self).mouse
                    &&& final(self).flags == old(self).flags
                    &&& *final(camera) == *old(camera)
                },
                InputEvent::MouseWheel { vertical } => {
                    &&& final(self).keys == old(self).keys
                    &&& final(self).mouse == old(self).mouse
                    &&& final(self).flags == (InputFlags {
                        scrolled_up: old(self).flags.scrolled_up || vertical > 0,
                        scrolled_down: old(self).flags.scrolled_down || vertical < 0,
                        ..old(self).flags
                    })
                    &&& *final(camera) == *old(camera)
                },
                InputEvent::MouseInput { button, state } => {
                    &&& final(self).keys == old(self).keys
                    &&& final(self).mouse.clicked_from(&old(self).mouse, state, button)
                    &&& final(self).flags == old(self).flags
                    &&& *final(camera) == *old(camera)
                },
                InputEvent::MouseMotion { dx, dy } => {
                    &&& final(self).keys == old(self).keys
                    &&& final(self).mouse == old(self).mouse
                    &&& final(self).flags == (InputFlags {
                        camera_has_moved: true,
                        ..old(self).flags
                    })
                    &&& final(camera).camera == old(camera).camera.turned(dx, dy)
                    &&& final(camera).camera.wf()
                    &&& final(camera).built()
                    &&& final(camera).uploaded()
                    &&& final(camera).buffer.id == old(camera).buffer.id
                },
                InputEvent::Other => {
                    &&& final(self).keys == old(self).keys
                    &&& final(self).mouse == old(self).mouse
                    &&& final(self).flags == old(self).flags
                    &&& *final(camera) == *old(camera)
                },
            },
    {
        match *process_event {
            InputEvent::KeyboardInput { key, state, repeat } => {
                if !repeat {
                    self.keys.key_press(state, key);
                }
            },
            InputEvent::MouseWheel { vertical } => {
                if vertical > 0 {
                    self.flags.scrolled_up = true;
                } else if vertical < 0 {
                    self.flags.scrolled_down = true;
                }
            },
            InputEvent::MouseInput { button, state } => {
                self.mouse.mouse_click(state, button);
            },
            InputEvent::MouseMotion { dx, dy } => {
                self.mouse_move((dx, dy), camera);
            },
            InputEvent::Other => {},
        }
    }

    /// The three actions that `key` is bound to, if it is bound.
    pub fn get_action(&self, key: &u32) -> (r: Option<[Action; 3]>)
        ensures
            r == if self.bindings@.contains_key(*key) {
                Some(self.bindings@[*key])
            } else {
                None
            },
    {
        broadcast use vstd::std_specs::hash::group_hash_axioms;

        match self.bindings.get(key) {
            Some(actions) => Some(*actions),
            None => None,
        }
    }

    /// The actions that are due in this tick. Afterwards the keys and
    /// buttons that came down or went up are forgotten, and so are the turns
    /// of the wheel; what is held stays held.
    pub fn get_actions(&mut self) -> (actions: Vec<Action>)
        ensures
            actions@ == due_actions(
                old(self).bindings@,
                old(self).keys.just_pressed@,
                old(self).keys.held@,
                old(self).keys.just_released@,
                old(self).flags,
            ),
            final(self).bindings == old(self).bindings,
            final(self).context == old(self).context,
            final(self).keys.held == old(self).keys.held,
            final(self).mouse.held == old(self).mouse.held,
            final(self).keys.just_pressed@.len() == 0,
            final(self).keys.just_released@.len() == 0,
            final(self).mouse.just_clicked@.len() == 0,
            final(self).mouse.just_released@.len() == 0,
            final(self).flags == (InputFlags {
                scrolled_up: false,
                scrolled_down: false,
                ..old(self).flags
            }),
    {
        let mut actions: Vec<Action> = Vec::new();
        collect_slot(&self.bindings, &self.keys.just_pressed, 0, &mut actions);
        collect_slot(&self.bindings, &self.keys.held, 1, &mut actions);
        collect_slot(&self.bindings, &self.keys.just_released, 2, &mut actions);
        if self.flags.is_zoomed && self.flags.scrolled_up {
            actions.push(Action::ZoomIn);
        }
        if self.flags.is_zoomed && self.flags.scrolled_down {
            actions.push(Action::ZoomOut);
        }
        assert(actions@ =~= due_actions(
            old(self).bindings@,
            old(self).keys.just_pressed@,
            old(self).keys.held@,
            old(self).keys.just_released@,
            old(self).flags,
        ));
        self.clear_frame_input();
        self.reset_flags();
        actions
    }

    /// Forgets which keys and buttons came down or went up.
    pub fn clear_frame_input(&mut self)
        ensures
            final(self).keys.just_pressed@.len() == 0,
            final(self).keys.just_released@.len() == 0,
            final(self).mouse.just_clicked@.len() == 0,
            final(self).mouse.just_released@.len() == 0,
            final(self).keys.held == old(self).keys.held,
            final(self).mouse.held == old(self).mouse.held,
            final(self).bindings == old(self).bindings,
            final(self).context == old(self).context,
            final(self).flags == old(self).flags,
    {
        self.keys.just_pressed.clear();
        self.keys.just_released.clear();
        self.mouse.just_clicked.clear();
        self.mouse.just_released.clear();
    }

    /// Forgets the turns of the wheel.
    pub fn reset_flags(&mut self)
        ensures
            final(self).flags == (InputFlags {
                scrolled_up: false,
                scrolled_down: false,
                ..old(self).flags
            }),
            final(self).keys == old(self).keys,
            final(self).mouse == old(self).mouse,
            final(self).bindings == old(self).bindings,
            final(self).context == old(self).context,
    {
        self.flags.scrolled_down = false;
        self.flags.scrolled_up = false;
    }

    /// Binds `key` to three actions: on press, while held, on release.
    pub fn rebind_key(
        &mut self,
        key: u32,
        pressed_action: Action,
        held_action: Action,
        released_action: Action,
    )
        ensures
            final(self).bindings@ == old(self).bindings@.insert(
                key,
                [pressed_action, held_action, released_action],
            ),
            final(self).flags == old(self).flags,
            final(self).context == old(self).context,
            final(self).keys == old(self).keys,
            final(self).mouse == old(self).mouse,
    {
        broadcast use vstd::std_specs::hash::group_hash_axioms;

        self.bindings.insert(key, [pressed_action, held_action, released_action]);
    }

    /// Turns the camera by a pointer motion, given in thousandths of a
    /// pixel, and marks the view as changed.
    pub fn mouse_move(&mut self, delta: (i64, i64), camera: &mut Camera)
        ensures
            final(camera).camera == old(camera).camera.turned(delta.0, delta.1),
            final(camera).camera.wf(),
            final(camera).built(),
            final(camera).uploaded(),
            final(camera).buffer.id == old(camera).buffer.id,
            final(self).flags == (InputFlags { camera_has_moved: true, ..old(self).flags }),
            final(self).keys == old(self).keys,
            final(self).mouse == old(self).mouse,
            final(self).bindings == old(self).bindings,
            final(self).context == old(self).context,
    {
        camera.turn(delta.0, delta.1);
        self.flags.camera_has_moved = true;
    }
}

} // verus!
