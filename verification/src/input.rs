//! Window events and the plain values that they carry.

use vstd::prelude::*;

verus! {

/// What happened to a key or a button.
#[derive(Clone, Copy, Debug, PartialEq, Eq, Structural)]
pub enum InputAction {
    Release,
    Press,
    Repeat,
}

/// The buttons of a mouse. The first three are left, right and middle.
#[derive(Clone, Copy, Debug, PartialEq, Eq, Structural)]
pub enum MouseButton {
    Button1,
    Button2,
    Button3,
    Button4,
    Button5,
    Button6,
    Button7,
    Button8,
}

/// A key. Keys that no binding refers to are told apart by their key code.
#[derive(Clone, Copy, Debug, PartialEq, Eq, Structural)]
pub enum Key {
    Enter,
    Up,
    Down,
    Backspace,
    Delete,
    Left,
    Right,
    Home,
    End,
    A,
    X,
    C,
    V,
    Other(i32),
}

/// A set of modifier keys, one bit for each key.
#[derive(Clone, Copy, Debug, PartialEq, Eq, Structural)]
pub struct Modifiers {
    pub bits: i32,
}

pub const SHIFT: i32 = 0x1;

pub const CONTROL: i32 = 0x2;

pub const ALT: i32 = 0x4;

pub const SUPER: i32 = 0x8;

pub const CAPS_LOCK: i32 = 0x10;

pub const NUM_LOCK: i32 = 0x20;

/// The desktop family, which decides what the modifier keys mean.
#[derive(Clone, Copy, Debug, PartialEq, Eq, Structural)]
pub enum Platform {
    MacOs,
    Other,
}

impl Modifiers {
    /// Every key of `flags` is among these modifiers.
    pub open spec fn includes(self, flags: Modifiers) -> bool {
        self.bits & flags.bits == flags.bits
    }

    /// Whether every key of `flags` is among these modifiers.
    pub fn contains(self, flags: Modifiers) -> (all: bool)
        ensures
            all == self.includes(flags),
    {
        self.bits & flags.bits == flags.bits
    }
}

impl Platform {
    /// The modifier that turns a cursor movement into a selection.
    pub open spec fn select_key(self) -> Modifiers {
        Modifiers { bits: SHIFT }
    }

    /// The modifier that makes the cursor move by whole words.
    pub open spec fn by_word_key(self) -> Modifiers {
        Modifiers {
            bits: if self is MacOs {
                ALT
            } else {
                CONTROL
            },
        }
    }

    /// The modifier that turns letters into editing commands.
    pub open spec fn function_key(self) -> Modifiers {
        Modifiers {
            bits: if self is MacOs {
                SUPER
            } else {
                CONTROL
            },
        }
    }

    /// Returns the modifier that turns a cursor movement into a selection.
    pub fn select_modifier_key(self) -> (key: Modifiers)
        ensures
            key == self.select_key(),
    {
        Modifiers { bits: SHIFT }
    }

    /// Returns the modifier that makes the cursor move by whole words.
    pub fn by_word_modifier_key(self) -> (key: Modifiers)
        ensures
            key == self.by_word_key(),
    {
        match self {
            Platform::MacOs => Modifiers { bits: ALT },
            Platform::Other => Modifiers { bits: CONTROL },
        }
    }

    /// Returns the modifier that turns letters into editing commands.
    pub fn function_modifier_key(self) -> (key: Modifiers)
        ensures
            key == self.function_key(),
    {
        match self {
            Platform::MacOs => Modifiers { bits: SUPER },
            Platform::Other => Modifiers { bits: CONTROL },
        }
    }
}

/// An event of a window. Coordinates and scroll offsets are the bit patterns
/// of double-precision numbers.
#[derive(Clone, Copy, Debug, PartialEq, Eq, Structural)]
pub enum WindowEvent {
    /// The cursor entered the window (`true`) or left it.
    CursorEnter(bool),
    /// The cursor moved to the given position.
    CursorPos(u64, u64),
    /// A mouse button changed.
    MouseButton(MouseButton, InputAction),
    /// The wheel or touchpad scrolled by the given offsets.
    Scroll(u64, u64),
    /// The framebuffer has a new size.
    FramebufferSize(i32, i32),
    /// The content scale changed.
    ContentScale,
    /// A character was typed.
    Char(char),
    /// A key changed: the key, its scancode, the change, the modifiers held.
    Key(Key, i32, InputAction, Modifiers),
    /// An event that calls for nothing.
    Ignored,
}

} // verus!
