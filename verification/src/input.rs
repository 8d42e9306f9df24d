//! Keyboard and mouse controls: which key holds which flight control, and
//! which keys command the game itself.
use vstd::prelude::*;

verus! {

/// The keys the game reacts to; every other key is `Other`.
#[derive(Clone, Copy, Debug, PartialEq, Eq, Structural)]
pub enum Key {
    W,
    A,
    S,
    D,
    Up,
    Down,
    Left,
    Right,
    Space,
    LeftShift,
    RightShift,
    LeftControl,
    Tab,
    Escape,
    C,
    F,
    M,
    P,
    T,
    Minus,
    KpSubtract,
    Equal,
    KpAdd,
    Other,
}

/// Mouse buttons.
#[derive(Clone, Copy, Debug, PartialEq, Eq, Structural)]
pub enum MouseButton {
    Left,
    Right,
    Middle,
    Other,
}

/// The flight controls held down.
#[derive(Clone, Copy, Debug, PartialEq, Eq, Structural)]
pub struct InputState {
    pub left: bool,
    pub right: bool,
    pub forward: bool,
    pub backward: bool,
    pub shoot: bool,
    pub boost: bool,
    pub up: bool,
    pub down: bool,
}

/// One flight control.
#[derive(Clone, Copy, Debug, PartialEq, Eq, Structural)]
pub enum Control {
    Left,
    Right,
    Forward,
    Backward,
    Shoot,
    Boost,
    Up,
    Down,
}

/// Whether control `c` is held in `s`.
pub open spec fn held(s: InputState, c: Control) -> bool {
    match c {
        Control::Left => s.left,
        Control::Right => s.right,
        Control::Forward => s.forward,
        Control::Backward => s.backward,
        Control::Shoot => s.shoot,
        Control::Boost => s.boost,
        Control::Up => s.up,
        Control::Down => s.down,
    }
}

/// `s` with control `c` set to `v`, the others unchanged.
pub open spec fn with_control(s: InputState, c: Control, v: bool) -> InputState {
    match c {
        Control::Left => InputState { left: v, ..s },
        Control::Right => InputState { right: v, ..s },
        Control::Forward => InputState { forward: v, ..s },
        Control::Backward => InputState { backward: v, ..s },
        Control::Shoot => InputState { shoot: v, ..s },
        Control::Boost => InputState { boost: v, ..s },
        Control::Up => InputState { up: v, ..s },
        Control::Down => InputState { down: v, ..s },
    }
}

/// Nothing held.
pub open spec fn released() -> InputState {
    InputState {
        left: false,
        right: false,
        forward: false,
        backward: false,
        shoot: false,
        boost: false,
        up: false,
        down: false,
    }
}

/// The control a key holds under the input handler: WASD or the arrows fly,
/// space climbs, left shift dives, left control shoots, tab boosts.
pub open spec fn handler_control(k: Key) -> Option<Control> {
    match k {
        Key::W | Key::Up => Some(Control::Forward),
        Key::S | Key::Down => Some(Control::Backward),
        Key::A | Key::Left => Some(Control::Left),
        Key::D | Key::Right => Some(Control::Right),
        Key::Space => Some(Control::Up),
        Key::LeftShift => Some(Control::Down),
        Key::LeftControl => Some(Control::Shoot),
        Key::Tab => Some(Control::Boost),
        _ => None,
    }
}

/// The control a key holds in the main window: the arrows or AD/WS fly, space
/// climbs, C dives, either shift boosts.
pub open spec fn stage_control(k: Key) -> Option<Control> {
    match k {
        Key::Left | Key::A => Some(Control::Left),
        Key::Right | Key::D => Some(Control::Right),
        Key::Up | Key::W => Some(Control::Forward),
        Key::Down | Key::S => Some(Control::Backward),
        Key::Space => Some(Control::Up),
        Key::C => Some(Control::Down),
        Key::LeftShift | Key::RightShift => Some(Control::Boost),
        _ => None,
    }
}

/// What a key asks of the main window besides the flight controls.
#[derive(Clone, Copy, Debug, PartialEq, Eq, Structural)]
pub enum StageCommand {
    Nothing,
    Quit,
    TogglePause,
    ToggleMouseCapture,
    ToggleFullscreen,
    ZoomOut,
    ZoomIn,
    TerrainInfo,
}

/// The command of a key pressed in the main window.
pub open spec fn stage_command(k: Key) -> StageCommand {
    match k {
        Key::Escape => StageCommand::Quit,
        Key::P => StageCommand::TogglePause,
        Key::M => StageCommand::ToggleMouseCapture,
        Key::F => StageCommand::ToggleFullscreen,
        Key::Minus | Key::KpSubtract => StageCommand::ZoomOut,
        Key::Equal | Key::KpAdd => StageCommand::ZoomIn,
        Key::T => StageCommand::TerrainInfo,
        _ => StageCommand::Nothing,
    }
}

/// The control a mouse button holds: left under both schemes shoots; right
/// boosts under the input handler and flies forward in the main window.
pub open spec fn mouse_control(b: MouseButton, stage: bool) -> Option<Control> {
    match b {
        MouseButton::Left => Some(Control::Shoot),
        MouseButton::Right => if stage { Some(Control::Forward) } else { Some(Control::Boost) },
        _ => None,
    }
}

fn set_control(s: &mut InputState, c: Control, v: bool)
    ensures
        *final(s) == with_control(*old(s), c, v),
{
    match c {
        Control::Left => s.left = v,
        Control::Right => s.right = v,
        Control::Forward => s.forward = v,
        Control::Backward => s.backward = v,
        Control::Shoot => s.shoot = v,
        Control::Boost => s.boost = v,
        Control::Up => s.up = v,
        Control::Down => s.down = v,
    }
}

impl InputState {
    /// Nothing held.
    pub fn new() -> (r: Self)
        ensures
            r == released(),
    {
        InputState {
            left: false,
            right: false,
            forward: false,
            backward: false,
            shoot: false,
            boost: false,
            up: false,
            down: false,
        }
    }

    /// Lets go of everything.
    pub fn reset(&mut self)
        ensures
            *final(self) == released(),
    {
        *self = InputState::new();
    }

    /// Whether any movement control is held (shooting and boosting are not
    /// movement).
    pub fn is_moving(&self) -> (r: bool)
        ensures
            r == (self.left || self.right || self.forward || self.backward || self.up || self.down),
    {
        self.left || self.right || self.forward || self.backward || self.up || self.down
    }

    /// The direction the held controls ask for, one unit per axis: right minus
    /// left, up minus down, forward minus backward.
    pub fn get_movement_vector(&self) -> (r: (i32, i32, i32))
        ensures
            r.0 == (if self.right { 1int } else { 0 }) - (if self.left { 1int } else { 0 }),
            r.1 == (if self.up { 1int } else { 0 }) - (if self.down { 1int } else { 0 }),
            r.2 == (if self.forward { 1int } else { 0 }) - (if self.backward { 1int } else { 0 }),
    {
        let mut dx: i32 = 0;
        let mut dy: i32 = 0;
        let mut dz: i32 = 0;
        if self.left {
            dx = dx - 1;
        }
        if self.right {
            dx = dx + 1;
        }
        if self.forward {
            dz = dz + 1;
        }
        if self.backward {
            dz = dz - 1;
        }
        if self.up {
            dy = dy + 1;
        }
        if self.down {
            dy = dy - 1;
        }
        (dx, dy, dz)
    }
}

/// The input handler: keys and mouse buttons to flight controls.
pub struct InputHandler;

impl InputHandler {
    /// A key went down: its control, if it has one, is held. Answers whether the
    /// key has a control.
    pub fn handle_key_down(input: &mut InputState, key: Key) -> (handled: bool)
        ensures
            handled == handler_control(key) is Some,
            *final(input) == match handler_control(key) {
                Some(c) => with_control(*old(input), c, true),
                None => *old(input),
            },
    {
        match key {
            Key::W | Key::Up => set_control(input, Control::Forward, true),
            Key::S | Key::Down => set_control(input, Control::Backward, true),
            Key::A | Key::Left => set_control(input, Control::Left, true),
            Key::D | Key::Right => set_control(input, Control::Right, true),
            Key::Space => set_control(input, Control::Up, true),
            Key::LeftShift => set_control(input, Control::Down, true),
            Key::LeftControl => set_control(input, Control::Shoot, true),
            Key::Tab => set_control(input, Control::Boost, true),
            _ => return false,
        }
        true
    }

    /// A key went up: its control, if it has one, is released. Answers whether
    /// the key has a control.
    pub fn handle_key_up(input: &mut InputState, key: Key) -> (handled: bool)
        ensures
            handled == handler_control(key) is Some,
            *final(input) == match handler_control(key) {
                Some(c) => with_control(*old(input), c, false),
                None => *old(input),
            },
    {
        match key {
            Key::W | Key::Up => set_control(input, Control::Forward, false),
            Key::S | Key::Down => set_control(input, Control::Backward, false),
            Key::A | Key::Left => set_control(input, Control::Left, false),
            Key::D | Key::Right => set_control(input, Control::Right, false),
            Key::Space => set_control(input, Control::Up, false),
            Key::LeftShift => set_control(input, Control::Down, false),
            Key::LeftControl => set_control(input, Control::Shoot, false),
            Key::Tab => set_control(input, Control::Boost, false),
            _ => return false,
        }
        true
    }

    /// A mouse button went down (`pressed`) or up: left holds the trigger, right
    /// the boost. Answers whether the button has a control.
    pub fn handle_mouse_button(input: &mut InputState, button: MouseButton, pressed: bool) -> (handled: bool)
        ensures
            handled == mouse_control(button, false) is Some,
            *final(input) == match mouse_control(button, false) {
                Some(c) => with_control(*old(input), c, pressed),
                None => *old(input),
            },
    {
        match button {
            MouseButton::Left => {
                set_control(input, Control::Shoot, pressed);
                true
            },
            MouseButton::Right => {
                set_control(input, Control::Boost, pressed);
                true
            },
            _ => false,
        }
    }
}

/// The controls of the main window.
pub struct StageControls;

impl StageControls {
    /// A key went down in the main window: its control, if it has one, is held,
    /// and its command, if it has one, is answered.
    pub fn key_down(input: &mut InputState, key: Key) -> (cmd: StageCommand)
        ensures
            cmd == stage_command(key),
            *final(input) == match stage_control(key) {
                Some(c) => with_control(*old(input), c, true),
                None => *old(input),
            },
    {
        match key {
            Key::Left | Key::A => set_control(input, Control::Left, true),
            Key::Right | Key::D => set_control(input, Control::Right, true),
            Key::Up | Key::W => set_control(input, Control::Forward, true),
            Key::Down | Key::S => set_control(input, Control::Backward, true),
            Key::Space => set_control(input, Control::Up, true),
            Key::C => set_control(input, Control::Down, true),
            Key::LeftShift | Key::RightShift => set_control(input, Control::Boost, true),
            _ => {},
        }
        match key {
            Key::Escape => StageCommand::Quit,
            Key::P => StageCommand::TogglePause,
            Key::M => StageCommand::ToggleMouseCapture,
            Key::F => StageCommand::ToggleFullscreen,
            Key::Minus | Key::KpSubtract => StageCommand::ZoomOut,
            Key::Equal | Key::KpAdd => StageCommand::ZoomIn,
            Key::T => StageCommand::TerrainInfo,
            _ => StageCommand::Nothing,
        }
    }

    /// A key went up in the main window: its control, if it has one, is released.
    pub fn key_up(input: &mut InputState, key: Key)
        ensures
            *final(input) == match stage_control(key) {
                Some(c) => with_control(*old(input), c, false),
                None => *old(input),
            },
    {
        match key {
            Key::Left | Key::A => set_control(input, Control::Left, false),
            Key::Right | Key::D => set_control(input, Control::Right, false),
            Key::Up | Key::W => set_control(input, Control::Forward, false),
            Key::Down | Key::S => set_control(input, Control::Backward, false),
            Key::Space => set_control(input, Control::Up, false),
            Key::C => set_control(input, Control::Down, false),
            Key::LeftShift | Key::RightShift => set_control(input, Control::Boost, false),
            _ => {},
        }
    }

    /// A mouse button went down (`pressed`) or up in the main window: left
    /// holds the trigger, right flies forward.
    pub fn mouse_button(input: &mut InputState, button: MouseButton, pressed: bool)
        ensures
            *final(input) == match mouse_control(button, true) {
                Some(c) => with_control(*old(input), c, pressed),
                None => *old(input),
            },
    {
        match button {
            MouseButton::Left => set_control(input, Control::Shoot, pressed),
            MouseButton::Right => set_control(input, Control::Forward, pressed),
            _ => {},
        }
    }
}

/// What a key asks of the application.
#[derive(Clone, Copy, Debug, PartialEq, Eq, Structural)]
pub enum AppCommand {
    /// Give the mouse back to the desktop.
    ReleaseMouse,
    /// Leave the game.
    Exit,
    ToggleFullscreen,
    TogglePause,
    /// Hand the key to the flight controls.
    Fly,
}

/// The application's reading of a key: escape first releases a captured mouse
/// and only exits when the mouse is free; F and P toggle fullscreen and pause;
/// every other key goes to the flight controls.
pub open spec fn app_command(mouse_captured: bool, key: Key) -> AppCommand {
    match key {
        Key::Escape => if mouse_captured { AppCommand::ReleaseMouse } else { AppCommand::Exit },
        Key::F => AppCommand::ToggleFullscreen,
        Key::P => AppCommand::TogglePause,
        _ => AppCommand::Fly,
    }
}

/// The application's event routing.
pub struct EventHandler;

impl EventHandler {
    /// What a key pressed asks of the application.
    pub fn key_down_command(mouse_captured: bool, key: Key) -> (cmd: AppCommand)
        ensures
            cmd == app_command(mouse_captured, key),
    {
        match key {
            Key::Escape => if mouse_captured {
                AppCommand::ReleaseMouse
            } else {
                AppCommand::Exit
            },
            Key::F => AppCommand::ToggleFullscreen,
            Key::P => AppCommand::TogglePause,
            _ => AppCommand::Fly,
        }
    }

    /// Whether a mouse button event captures the mouse: a press while the mouse
    /// is free does, and is not handed to the flight controls; anything else is.
    pub fn mouse_button_captures(mouse_captured: bool, pressed: bool) -> (r: bool)
        ensures
            r == (!mouse_captured && pressed),
    {
        !mouse_captured && pressed
    }
}

/// The state after a key went down under the map `control_of`.
pub open spec fn after_press(control_of: spec_fn(Key) -> Option<Control>, s: InputState, k: Key) -> InputState {
    match control_of(k) {
        Some(c) => with_control(s, c, true),
        None => s,
    }
}

/// The flight keys come in pairs, letter and arrow, each pair steering the
/// way its arrow points, in the input handler and in the main window alike:
/// A and the left arrow hold left, D and the right arrow hold right, W and the
/// up arrow thrust forward, S and the down arrow thrust backward. Whatever the
/// controls were, pressing A leaves left held and right as it was, and
/// pressing D the other way round.
pub proof fn law_keys_steer_their_way(s: InputState)
    ensures
        after_press(|k: Key| handler_control(k), s, Key::A) == after_press(|k: Key| handler_control(k), s, Key::Left),
        after_press(|k: Key| handler_control(k), s, Key::D) == after_press(|k: Key| handler_control(k), s, Key::Right),
        after_press(|k: Key| handler_control(k), s, Key::W) == after_press(|k: Key| handler_control(k), s, Key::Up),
        after_press(|k: Key| handler_control(k), s, Key::S) == after_press(|k: Key| handler_control(k), s, Key::Down),
        after_press(|k: Key| stage_control(k), s, Key::A) == after_press(|k: Key| stage_control(k), s, Key::Left),
        after_press(|k: Key| stage_control(k), s, Key::D) == after_press(|k: Key| stage_control(k), s, Key::Right),
        after_press(|k: Key| stage_control(k), s, Key::W) == after_press(|k: Key| stage_control(k), s, Key::Up),
        after_press(|k: Key| stage_control(k), s, Key::S) == after_press(|k: Key| stage_control(k), s, Key::Down),
        held(after_press(|k: Key| handler_control(k), s, Key::A), Control::Left),
        held(after_press(|k: Key| handler_control(k), s, Key::A), Control::Right) == held(s, Control::Right),
        held(after_press(|k: Key| handler_control(k), s, Key::D), Control::Right),
        held(after_press(|k: Key| handler_control(k), s, Key::D), Control::Left) == held(s, Control::Left),
        held(after_press(|k: Key| handler_control(k), s, Key::W), Control::Forward),
        held(after_press(|k: Key| handler_control(k), s, Key::S), Control::Backward),
        held(after_press(|k: Key| stage_control(k), s, Key::A), Control::Left),
        held(after_press(|k: Key| stage_control(k), s, Key::A), Control::Right) == held(s, Control::Right),
        held(after_press(|k: Key| stage_control(k), s, Key::D), Control::Right),
        held(after_press(|k: Key| stage_control(k), s, Key::D), Control::Left) == held(s, Control::Left),
        held(after_press(|k: Key| stage_control(k), s, Key::W), Control::Forward),
        held(after_press(|k: Key| stage_control(k), s, Key::S), Control::Backward),
{
}

/// Pressing then releasing a key restores the controls to what they were, as
/// long as its control was not already held; other controls are never touched.
pub proof fn law_press_release_restores(s: InputState, c: Control, other: Control)
    ensures
        !held(s, c) ==> with_control(with_control(s, c, true), c, false) == s,
        held(with_control(s, c, true), c),
        !held(with_control(s, c, false), c),
        other != c ==> held(with_control(s, c, true), other) == held(s, other),
{
}

/// A net movement along any axis means the player is moving.
pub proof fn law_movement_needs_input(s: InputState)
    ensures
        (s.right != s.left || s.up != s.down || s.forward != s.backward) ==> (s.left || s.right || s.forward
            || s.backward || s.up || s.down),
{
}

} // verus!
