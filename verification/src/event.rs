use vstd::prelude::*;

use crate::position::{Dimension, Position};
use crate::scalar::Scalar;

verus! {

/// A key on the keyboard.
#[derive(Clone, Copy, Debug, PartialEq, Eq, Structural, Hash)]
pub enum Key {
    Unknown,
    Backspace,
    Tab,
    Return,
    Escape,
    Space,
    Comma,
    Minus,
    Period,
    Slash,
    D0,
    D1,
    D2,
    D3,
    D4,
    D5,
    D6,
    D7,
    D8,
    D9,
    Semicolon,
    Equals,
    LeftBracket,
    Backslash,
    RightBracket,
    Backquote,
    A,
    B,
    C,
    D,
    E,
    F,
    G,
    H,
    I,
    J,
    K,
    L,
    M,
    N,
    O,
    P,
    Q,
    R,
    S,
    T,
    U,
    V,
    W,
    X,
    Y,
    Z,
    Delete,
    CapsLock,
    F1,
    F2,
    F3,
    F4,
    F5,
    F6,
    F7,
    F8,
    F9,
    F10,
    F11,
    F12,
    PrintScreen,
    ScrollLock,
    Pause,
    Insert,
    Home,
    PageUp,
    End,
    PageDown,
    Right,
    Left,
    Down,
    Up,
    NumLockClear,
    LCtrl,
    LShift,
    LAlt,
    LGui,
    RCtrl,
    RShift,
    RAlt,
    RGui,
}

/// A button on the mouse.
#[derive(Clone, Copy, Debug, PartialEq, Eq, Structural, Hash)]
pub enum MouseButton {
    Unknown,
    Left,
    Right,
    Middle,
    X1,
    X2,
    Button6,
    Button7,
    Button8,
}

/// A set of modifier keys, one bit per key.
#[derive(Clone, Copy, Debug, PartialEq, Eq, Structural, Hash)]
pub struct ModifierKey {
    pub bits: u8,
}

/// Bit of the control key.
pub const CTRL_BIT: u8 = 0b0000_0001u8;

/// Bit of the shift key.
pub const SHIFT_BIT: u8 = 0b0000_0010u8;

/// Bit of the alt key.
pub const ALT_BIT: u8 = 0b0000_0100u8;

/// Bit of the gui (logo or command) key.
pub const GUI_BIT: u8 = 0b0000_1000u8;

impl ModifierKey {
    /// The empty set.
    pub fn no_modifier() -> (m: ModifierKey)
        ensures
            m.bits == 0,
    {
        ModifierKey { bits: 0 }
    }

    pub fn ctrl() -> (m: ModifierKey)
        ensures
            m.bits == CTRL_BIT,
    {
        ModifierKey { bits: CTRL_BIT }
    }

    pub fn shift() -> (m: ModifierKey)
        ensures
            m.bits == SHIFT_BIT,
    {
        ModifierKey { bits: SHIFT_BIT }
    }

    pub fn alt() -> (m: ModifierKey)
        ensures
            m.bits == ALT_BIT,
    {
        ModifierKey { bits: ALT_BIT }
    }

    pub fn gui() -> (m: ModifierKey)
        ensures
            m.bits == GUI_BIT,
    {
        ModifierKey { bits: GUI_BIT }
    }

    /// Adds every key of `other` to the set.
    pub fn insert(&mut self, other: ModifierKey)
        ensures
            final(self).bits == old(self).bits | other.bits,
    {
        self.bits = self.bits | other.bits;
    }

    /// Takes every key of `other` out of the set.
    pub fn remove(&mut self, other: ModifierKey)
        ensures
            final(self).bits == old(self).bits & !other.bits,
    {
        self.bits = self.bits & !other.bits;
    }

    /// Whether every key of `other` is in the set.
    pub fn contains(&self, other: ModifierKey) -> (r: bool)
        ensures
            r == (self.bits & other.bits == other.bits),
    {
        self.bits & other.bits == other.bits
    }
}

impl Default for ModifierKey {
    fn default() -> (m: ModifierKey)
        ensures
            m.bits == 0,
    {
        ModifierKey { bits: 0 }
    }
}

/// The modifier that a key stands for, if it is a modifier key.
pub open spec fn modifier_of(key: Key) -> Option<u8> {
    match key {
        Key::LCtrl | Key::RCtrl => Some(CTRL_BIT),
        Key::LShift | Key::RShift => Some(SHIFT_BIT),
        Key::LAlt | Key::RAlt => Some(ALT_BIT),
        Key::LGui | Key::RGui => Some(GUI_BIT),
        _ => None,
    }
}

/// The modifier that `key` stands for: control, shift, alt and gui for their
/// left and right keys, none for any other key.
pub fn filter_modifier(key: Key) -> (r: Option<ModifierKey>)
    ensures
        r == (match modifier_of(key) {
            Some(bits) => Some(ModifierKey { bits }),
            None => None,
        }),
{
    match key {
        Key::LCtrl | Key::RCtrl => Some(ModifierKey::ctrl()),
        Key::LShift | Key::RShift => Some(ModifierKey::shift()),
        Key::LAlt | Key::RAlt => Some(ModifierKey::alt()),
        Key::LGui | Key::RGui => Some(ModifierKey::gui()),
        _ => None,
    }
}

/// A button of a keyboard or a mouse.
#[derive(Clone, Copy, Debug, PartialEq, Eq, Structural, Hash)]
pub enum Button {
    Keyboard(Key),
    Mouse(MouseButton),
}

/// The arguments of a controller axis motion.
#[derive(Clone, Copy, Debug)]
pub struct ControllerAxisArgs {
    pub id: i32,
    pub axis: u8,
    pub position: Scalar,
}

/// A motion of the cursor, the wheel or a controller.
#[derive(Clone, Copy, Debug)]
pub enum Motion {
    /// The cursor moved to `x`, `y`, relative to the centre of the window with
    /// y growing upward.
    MouseCursor { x: Scalar, y: Scalar },
    /// The cursor moved by `x`, `y`.
    MouseRelative { x: Scalar, y: Scalar },
    /// The wheel scrolled by `x`, `y`.
    Scroll { x: Scalar, y: Scalar },
    ControllerAxis(ControllerAxisArgs),
}

/// The stage of a touch.
#[derive(Clone, Copy, Debug, PartialEq, Eq, Structural, Hash)]
pub enum TouchPhase {
    Start,
    Move,
    Cancel,
    End,
}

/// A touch on a touch screen.
#[derive(Clone, Copy, Debug)]
pub struct Touch {
    pub phase: TouchPhase,
    pub id: u64,
    pub xy: [Scalar; 2],
}

/// Raw input that a window hands to the toolkit.
#[derive(Clone, Debug)]
pub enum Input {
    Press(Button),
    Release(Button),
    /// The window took a new size, in pixels.
    Resize(u32, u32),
    Motion(Motion),
    Touch(Touch),
    Text(String),
    Focus(bool),
    Redraw,
}

/// An event that the toolkit delivers to widgets.
#[derive(Clone, Debug)]
pub enum WidgetEvent {
    Mouse(MouseEvent),
    Keyboard(KeyboardEvent),
    Window(WindowEvent),
    Touch(TouchEvent),
    DoneProcessingEvents,
}

/// An event of the mouse; positions are in the window's coordinates.
#[derive(Clone, Copy, Debug)]
pub enum MouseEvent {
    Press(MouseButton, Position, ModifierKey),
    Release(MouseButton, Position, ModifierKey),
    Click(MouseButton, Position, ModifierKey),
    Move { from: Position, to: Position, delta_xy: Position, modifiers: ModifierKey },
    NClick(MouseButton, Position, ModifierKey, u32),
    Scroll { x: Scalar, y: Scalar, mouse_position: Position, modifiers: ModifierKey },
    Drag {
        button: MouseButton,
        origin: Position,
        from: Position,
        to: Position,
        delta_xy: Position,
        total_delta_xy: Position,
        modifiers: ModifierKey,
    },
}

/// An event of the keyboard.
#[derive(Clone, Debug)]
pub enum KeyboardEvent {
    Press(Key, ModifierKey),
    Release(Key, ModifierKey),
    Click(Key, ModifierKey),
    Text(String, ModifierKey),
}

/// An event of the window.
#[derive(Clone, Copy, Debug)]
pub enum WindowEvent {
    Resize(Dimension),
    Focus,
    UnFocus,
    Redraw,
}

/// An event of a touch screen. Touch input is not interpreted yet, so no value
/// of this type is ever made: its one field is private and nothing in the
/// crate constructs it.
#[derive(Clone, Copy, Debug)]
pub struct TouchEvent {
    never: (),
}

impl MouseEvent {
    /// The position of the cursor that the event reports: the position of a
    /// press, release or click, the end of a move or drag, the cursor during a
    /// scroll.
    pub open spec fn current_position(self) -> Position {
        match self {
            MouseEvent::Press(_, n, _) => n,
            MouseEvent::Release(_, n, _) => n,
            MouseEvent::Click(_, n, _) => n,
            MouseEvent::Move { to, .. } => to,
            MouseEvent::NClick(_, n, _, _) => n,
            MouseEvent::Scroll { mouse_position, .. } => mouse_position,
            MouseEvent::Drag { to, .. } => to,
        }
    }

    pub fn get_current_mouse_position(&self) -> (r: Position)
        ensures
            r == self.current_position(),
    {
        match self {
            MouseEvent::Press(_, n, _) => *n,
            MouseEvent::Release(_, n, _) => *n,
            MouseEvent::Click(_, n, _) => *n,
            MouseEvent::Move { to, .. } => *to,
            MouseEvent::NClick(_, n, _, _) => *n,
            MouseEvent::Scroll { mouse_position, .. } => *mouse_position,
            MouseEvent::Drag { to, .. } => *to,
        }
    }
}

} // verus!
