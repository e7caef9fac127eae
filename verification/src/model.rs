//! Plain value shapes handed between the event source, the runtime and the
//! guest.
//!
//! Geometry and scale values are carried opaquely: the host never computes on
//! them, it only passes them through to the guest and back to the
//! presentation layer.  Each such value is stored as the raw 32-bit encoding
//! of the caller's scalar, so the whole model stays in plain integers.

use vstd::prelude::*;

verus! {

/// Logical window size as seen by the guest.  `width`, `height` and
/// `scale_factor` hold the raw 32-bit encodings of the caller's scalar
/// values.
#[derive(Clone, Copy, Debug)]
pub struct LogicalSize {
    pub width: u32,
    pub height: u32,
    pub scale_factor: u32,
}

/// Keyboard modifier state at the time of an input event.
#[derive(Clone, Copy, Debug)]
pub struct Modifiers {
    pub shift: bool,
    pub ctrl: bool,
    pub alt: bool,
    pub meta: bool,
}

/// Which pointer buttons are held during a pointer event.
#[derive(Clone, Copy, Debug)]
pub struct PointerButtons {
    pub primary: bool,
    pub secondary: bool,
}

/// The class of device a pointer event came from.
#[derive(Clone, Copy, Debug, PartialEq, Eq, Structural)]
pub enum PointerKind {
    Mouse,
    Touch,
    Pen,
}

/// One pointer event, with its position held as two raw 32-bit scalar
/// encodings.
#[derive(Clone, Copy, Debug)]
pub struct PointerEvent {
    pub kind: PointerKind,
    pub position: [u32; 2],
    pub buttons: PointerButtons,
    pub modifiers: Modifiers,
    pub pointer_id: u64,
}

/// One keyboard event.
#[derive(Clone, Debug)]
pub struct KeyEvent {
    pub key: String,
    pub code: String,
    pub modifiers: Modifiers,
    pub is_repeat: bool,
}

/// Text content of the host's diagnostic overlay, shown over the guest's
/// output after a failure; consumed by the presentation layer.
#[derive(Clone, Debug)]
pub struct OverlayContent {
    pub title: String,
    pub body: Vec<String>,
    pub footer: String,
}

} // verus!
