//! The translated input events and the pending-input buffer they accumulate
//! in between frames.

use vstd::prelude::*;
use crate::geom::Pos;
use crate::keymap::{PointerButton, UiKey, UiModifiers};

verus! {

/// The stored screen rectangle: always anchored at the origin, so only the
/// width and height vary. It stands for the rectangle from (0, 0) to
/// (width, height) in logical units.
#[derive(Clone, Copy, PartialEq, Eq, Structural, Debug)]
pub struct ScreenRect {
    pub width: u32,
    pub height: u32,
}

/// One input event in the GUI library's vocabulary, as the translation tables
/// produce it.
#[derive(Clone, Copy, PartialEq, Eq, Structural, Debug)]
pub enum UiEvent {
    /// The pointer moved to an absolute position.
    PointerMoved(Pos),
    /// A pointer button went down or up, stamped with the last known pointer
    /// position and modifier snapshot, since the host reports neither with
    /// the button.
    PointerButton { pos: Pos, button: PointerButton, pressed: bool, modifiers: UiModifiers },
    /// A key went down or up. The host does not distinguish key repeat from a
    /// fresh press, so `repeat` is always reported false.
    Key { key: UiKey, pressed: bool, repeat: bool, modifiers: UiModifiers },
    /// A character was typed.
    Text(char),
}

/// Everything handed to the GUI library when a frame begins: the events
/// buffered since the previous frame, the screen rectangle if it changed, and
/// the current modifier snapshot.
#[derive(Debug)]
pub struct FrameInput {
    pub events: Vec<UiEvent>,
    pub screen_rect: Option<ScreenRect>,
    pub modifiers: UiModifiers,
}

} // verus!
