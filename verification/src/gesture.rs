//! Gesture classification: which command the current frame's inputs call for.

use vstd::prelude::*;
use crate::command::{CommandType, ProjectionMode};

verus! {

/// The per-frame input state the classifier reads. The host reduces the raw
/// event queues to these flags once per frame: `cursor_moving` is whether the
/// accumulated pointer motion is nonzero, `scrolling` whether the accumulated
/// scroll amount is nonzero; the rest are button and key states.
#[derive(Clone, Copy, Debug, PartialEq, Eq, Structural)]
pub struct GestureInput {
    /// The pointer moved this frame.
    pub cursor_moving: bool,
    /// The scroll wheel moved this frame.
    pub scrolling: bool,
    /// Either Shift key is held.
    pub shift_held: bool,
    /// The right mouse button is held.
    pub right_held: bool,
    /// The middle mouse button is held.
    pub middle_held: bool,
    /// The right mouse button went down this frame.
    pub right_just_pressed: bool,
    /// The Escape key went down this frame.
    pub escape_just_pressed: bool,
}

/// The inputs ask for a pan: the pointer is moving with the right button
/// held and Shift not held.
pub open spec fn pan_requested(g: GestureInput) -> bool {
    g.cursor_moving && !g.shift_held && g.right_held
}

/// The inputs ask for an orbit: the pointer is moving with the middle button
/// held, or the right button is held together with Shift.
pub open spec fn orbit_requested(g: GestureInput) -> bool {
    (g.cursor_moving && g.middle_held) || (g.right_held && g.shift_held)
}

/// The classification rule. The decision order encodes priority when several
/// conditions hold at once: pan first, then orbit, then the mode's zoom,
/// then pivot selection, and `Inactive` when nothing matches.
pub open spec fn spec_classify(
    g: GestureInput,
    prev: CommandType,
    mode: ProjectionMode,
) -> CommandType {
    if pan_requested(g) {
        CommandType::Pan
    } else if orbit_requested(g) {
        CommandType::Orbit
    } else if mode == ProjectionMode::Orthographic && g.scrolling {
        CommandType::ScaleZoom
    } else if mode == ProjectionMode::Perspective && g.scrolling {
        if g.shift_held {
            CommandType::FovZoom
        } else {
            CommandType::TranslationZoom
        }
    } else if mode == ProjectionMode::Perspective && g.right_just_pressed && prev
        == CommandType::Inactive {
        CommandType::SelectOrbitPivot
    } else if mode == ProjectionMode::Perspective && g.escape_just_pressed {
        CommandType::DeselectOrbitPivot
    } else {
        CommandType::Inactive
    }
}

/// Maps the frame's input state, the previous frame's command type, and the
/// active projection mode to this frame's command type. Total: every input
/// state yields exactly one command type, `Inactive` by default.
pub fn get_command_type(
    g: GestureInput,
    prev: CommandType,
    mode: ProjectionMode,
) -> (r: CommandType)
    ensures
        r == spec_classify(g, prev, mode),
{
    let is_orthographic = mode == ProjectionMode::Orthographic;
    let is_perspective = mode == ProjectionMode::Perspective;
    if g.cursor_moving && !g.shift_held && g.right_held {
        CommandType::Pan
    } else if (g.cursor_moving && g.middle_held) || (g.right_held && g.shift_held) {
        CommandType::Orbit
    } else if is_orthographic && g.scrolling {
        CommandType::ScaleZoom
    } else if is_perspective && g.scrolling {
        if g.shift_held {
            CommandType::FovZoom
        } else {
            CommandType::TranslationZoom
        }
    } else if is_perspective && g.right_just_pressed && prev == CommandType::Inactive {
        CommandType::SelectOrbitPivot
    } else if is_perspective && g.escape_just_pressed {
        CommandType::DeselectOrbitPivot
    } else {
        CommandType::Inactive
    }
}

/// Classification is a pure function of its inputs: the same input state,
/// previous command, and mode always yield the same single command type.
pub proof fn lemma_classify_deterministic(
    g1: GestureInput,
    prev1: CommandType,
    mode1: ProjectionMode,
    g2: GestureInput,
    prev2: CommandType,
    mode2: ProjectionMode,
)
    requires
        g1 == g2,
        prev1 == prev2,
        mode1 == mode2,
    ensures
        spec_classify(g1, prev1, mode1) == spec_classify(g2, prev2, mode2),
{
}

/// Pivot selection never fires on a frame whose inputs already ask for a pan,
/// an orbit, or a zoom, and only when the previous frame had no gesture: a
/// held button cannot re-select the pivot frame after frame, and the click
/// that starts a pan or orbit is not also a pivot selection.
pub proof fn lemma_select_pivot_excludes_motion(
    g: GestureInput,
    prev: CommandType,
    mode: ProjectionMode,
)
    ensures
        spec_classify(g, prev, mode) == CommandType::SelectOrbitPivot ==> {
            &&& !pan_requested(g)
            &&& !orbit_requested(g)
            &&& !g.scrolling
            &&& prev == CommandType::Inactive
            &&& mode == ProjectionMode::Perspective
        },
{
}

} // verus!
