//! Pointer events and the order in which an engine accepts them.

use crate::input::MouseButton;
use vstd::prelude::*;

verus! {

/// The phase of a pointer event.
#[derive(Clone, Copy, Debug, PartialEq, Eq, Structural)]
pub enum FlutterPointerPhase {
    /// The pointer appears.
    Add,
    /// The pointer disappears.
    Remove,
    /// The pointer moves with no button down.
    Hover,
    /// The pointer moves with a button down.
    Move,
    /// A button goes down.
    Down,
    /// A button goes up.
    Up,
}

/// What a pointer event signals besides its phase.
#[derive(Clone, Copy, Debug, PartialEq, Eq, Structural)]
pub enum FlutterPointerSignalKind {
    NoSignal,
    Scroll,
}

/// The button that a pointer event is about.
#[derive(Clone, Copy, Debug, PartialEq, Eq, Structural)]
pub enum FlutterPointerMouseButtons {
    Primary,
    Secondary,
    Middle,
    Back,
    Forward,
}

/// A length in screen coordinates: the double-precision number with the bit
/// pattern `bits`, times `factor`.
#[derive(Clone, Copy, Debug, PartialEq, Eq, Structural)]
pub struct ScreenLength {
    pub bits: u64,
    pub factor: i32,
}

/// The number of window pixels for each screen coordinate: the quotient of two
/// widths, taken in double precision.
#[derive(Clone, Copy, Debug, PartialEq, Eq, Structural)]
pub struct PixelRatio {
    pub framebuffer_width: i32,
    pub window_width: i32,
}

/// A pointer event for the engine. Each of the four lengths reaches the engine
/// multiplied by `pixels_per_screen_coordinate`.
#[derive(Clone, Copy, Debug, PartialEq, Eq, Structural)]
pub struct PointerEvent {
    pub phase: FlutterPointerPhase,
    pub x: ScreenLength,
    pub y: ScreenLength,
    pub signal_kind: FlutterPointerSignalKind,
    pub scroll_delta_x: ScreenLength,
    pub scroll_delta_y: ScreenLength,
    pub buttons: FlutterPointerMouseButtons,
    pub pixels_per_screen_coordinate: PixelRatio,
}

/// Screen coordinates for each unit of scrolling, about two and a half lines of
/// text.
pub const SCROLL_SPEED: i32 = 50;

impl ScreenLength {
    /// The length whose bit pattern is `bits`.
    pub open spec fn of(bits: u64) -> ScreenLength {
        ScreenLength { bits, factor: 1 }
    }

    /// The length zero.
    pub open spec fn zero() -> ScreenLength {
        ScreenLength::of(0)
    }

    /// Returns the length whose bit pattern is `bits`.
    pub fn from_bits(bits: u64) -> (length: ScreenLength)
        ensures
            length == ScreenLength::of(bits),
    {
        ScreenLength { bits, factor: 1 }
    }
}

impl PixelRatio {
    /// The ratio of a window that was not measured yet, which is zero.
    pub open spec fn unmeasured() -> PixelRatio {
        PixelRatio { framebuffer_width: 0, window_width: 1 }
    }
}

impl PointerEvent {
    /// An event without scrolling.
    pub open spec fn plain(
        phase: FlutterPointerPhase,
        x: u64,
        y: u64,
        buttons: FlutterPointerMouseButtons,
        ratio: PixelRatio,
    ) -> PointerEvent {
        PointerEvent {
            phase,
            x: ScreenLength::of(x),
            y: ScreenLength::of(y),
            signal_kind: FlutterPointerSignalKind::NoSignal,
            scroll_delta_x: ScreenLength::zero(),
            scroll_delta_y: ScreenLength::zero(),
            buttons,
            pixels_per_screen_coordinate: ratio,
        }
    }

    /// The event that makes the pointer appear where `self` happens.
    pub open spec fn introduction(self) -> PointerEvent {
        PointerEvent {
            phase: FlutterPointerPhase::Add,
            signal_kind: FlutterPointerSignalKind::NoSignal,
            scroll_delta_x: ScreenLength::zero(),
            scroll_delta_y: ScreenLength::zero(),
            ..self
        }
    }

    /// The phase concerns a pointer that is there already, or has to be.
    pub open spec fn presumes_presence(self) -> bool {
        self.phase != FlutterPointerPhase::Add && self.phase != FlutterPointerPhase::Remove
    }

    /// The event would make a pointer appear that is there, or disappear that
    /// is not.
    pub open spec fn is_redundant(self, added: bool) -> bool {
        if added {
            self.phase == FlutterPointerPhase::Add
        } else {
            self.phase == FlutterPointerPhase::Remove
        }
    }
}

/// What the engine is sent to convey `event`, where `added` says whether it
/// knows the pointer: an introduction first if the event presumes a pointer
/// that the engine does not know, and nothing at all if the event is redundant.
pub open spec fn conveyed(added: bool, event: PointerEvent) -> Seq<PointerEvent> {
    let introduction = if !added && event.presumes_presence() {
        seq![event.introduction()]
    } else {
        Seq::empty()
    };
    let itself = if event.is_redundant(added) {
        Seq::empty()
    } else {
        seq![event]
    };
    introduction + itself
}

/// Whether the engine knows the pointer once `event` has been conveyed.
pub open spec fn added_after(event: PointerEvent) -> bool {
    event.phase != FlutterPointerPhase::Remove
}

/// Whether the engine knows the pointer after `events`, having known it before
/// them as `added` says.
pub open spec fn presence(added: bool, events: Seq<PointerEvent>) -> bool {
    if events.len() == 0 {
        added
    } else {
        added_after(events.last())
    }
}

/// The engine accepts `events`: a pointer appears only while it is absent, and
/// does anything else, disappearing included, only while it is present.
pub open spec fn orderly(added: bool, events: Seq<PointerEvent>) -> bool {
    forall|i: int|
        0 <= i < events.len() ==> ((#[trigger] events[i]).phase == FlutterPointerPhase::Add
            <==> !presence(added, events.take(i)))
}

/// The engine's name for a mouse button.
pub open spec fn engine_button(button: MouseButton) -> FlutterPointerMouseButtons {
    match button {
        MouseButton::Button2 => FlutterPointerMouseButtons::Secondary,
        MouseButton::Button3 => FlutterPointerMouseButtons::Middle,
        MouseButton::Button4 => FlutterPointerMouseButtons::Back,
        MouseButton::Button5 => FlutterPointerMouseButtons::Forward,
        _ => FlutterPointerMouseButtons::Primary,
    }
}

/// Returns the engine's name for a mouse button. Buttons that the engine has no
/// name for count as the primary one.
pub fn pointer_button(button: MouseButton) -> (buttons: FlutterPointerMouseButtons)
    ensures
        buttons == engine_button(button),
{
    match button {
        MouseButton::Button1 => FlutterPointerMouseButtons::Primary,
        MouseButton::Button2 => FlutterPointerMouseButtons::Secondary,
        MouseButton::Button3 => FlutterPointerMouseButtons::Middle,
        MouseButton::Button4 => FlutterPointerMouseButtons::Back,
        MouseButton::Button5 => FlutterPointerMouseButtons::Forward,
        _ => FlutterPointerMouseButtons::Primary,
    }
}

} // verus!
