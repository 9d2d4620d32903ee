//! Camera-control state and the per-frame pipeline step.

use vstd::prelude::*;
use crate::anchor::{spec_persisted_anchor, spec_resolve_anchor, persisted_anchor, resolve_anchor,
    AnchorCandidates};
use crate::command::{finite_point, spec_default_command, CommandType, CursorCommand,
    ProjectionMode, Vec3Bits};
use crate::gesture::{spec_classify, get_command_type, GestureInput};

verus! {

/// The process-wide camera-control record: which camera entity each
/// projection mode controls, which mode is active, and the optional
/// persistent orbit pivot. The pivot is mutated only by the pivot
/// select/deselect gestures and persists across frames and gesture
/// boundaries until explicitly cleared.
#[derive(Clone, Copy, Debug, PartialEq)]
pub struct CameraControlState {
    /// Identifier of the camera entity the perspective mode controls.
    pub perspective_camera: u64,
    /// Identifier of the camera entity the orthographic mode controls.
    pub orthographic_camera: u64,
    /// The active projection mode.
    pub mode: ProjectionMode,
    /// The persistent world point the camera orbits around, if one is set.
    pub orbit_pivot: Option<Vec3Bits>,
}

/// Everything the pipeline reads for one frame, reduced to plain values by
/// the host: whether the cursor is inside the viewport, whether the ray
/// picker could supply a view ray at all, the classifier's input state, and
/// the anchor candidates along that ray.
#[derive(Clone, Copy, Debug, PartialEq)]
pub struct FrameInput {
    /// The cursor is inside the viewport this frame.
    pub cursor_in_window: bool,
    /// The ray picker supplied a view ray this frame.
    pub ray_available: bool,
    pub gesture: GestureInput,
    pub candidates: AnchorCandidates,
}

/// What the host must do with this frame: write the default command, leave
/// the previous command untouched, write a bare pivot select/deselect
/// command, or run the numeric motion solver for the active mode.
#[derive(Clone, Copy, Debug, PartialEq)]
pub enum FrameAction {
    /// No gesture (or no cursor in the viewport): replace the command with
    /// the default and drop any stored anchor.
    WriteDefault,
    /// No view ray was available: perform no update this frame.
    KeepPrevious,
    /// A pivot was selected: write the default command tagged
    /// `SelectOrbitPivot`; the pivot is already stored in the state.
    SetPivot { pivot: Vec3Bits },
    /// The pivot was deselected: write the default command tagged
    /// `DeselectOrbitPivot`; the pivot is already cleared from the state.
    ClearPivot,
    /// Run the motion solver for `mode` on this frame's gesture.
    Solve {
        /// The projection mode whose solver runs.
        mode: ProjectionMode,
        /// The classified gesture (one of the motion or zoom gestures).
        command_type: CommandType,
        /// The anchor the solve holds fixed: the one the gesture started
        /// with, or this frame's resolved point at a gesture boundary.
        anchor: Vec3Bits,
        /// The anchor resolved freshly this frame (the orthographic solver
        /// reconstructs its view direction from it).
        fresh_anchor: Vec3Bits,
        /// The persistent orbit pivot, if one is set.
        orbit_pivot: Option<Vec3Bits>,
    },
}

/// The decision the pipeline takes for one frame, in priority order: reset
/// when the cursor is outside the viewport or no gesture matched; no update
/// when no view ray is available; pivot select/deselect; otherwise solve the
/// classified motion gesture with the persisted anchor.
pub open spec fn spec_frame_action(
    s: CameraControlState,
    input: FrameInput,
    prev: CursorCommand,
) -> FrameAction {
    let c = spec_classify(input.gesture, prev.command_type, s.mode);
    let fresh = spec_resolve_anchor(input.candidates);
    if !input.cursor_in_window {
        FrameAction::WriteDefault
    } else if c == CommandType::Inactive {
        FrameAction::WriteDefault
    } else if !input.ray_available {
        FrameAction::KeepPrevious
    } else if c == CommandType::SelectOrbitPivot {
        FrameAction::SetPivot { pivot: fresh }
    } else if c == CommandType::DeselectOrbitPivot {
        FrameAction::ClearPivot
    } else {
        FrameAction::Solve {
            mode: s.mode,
            command_type: c,
            anchor: spec_persisted_anchor(prev.cursor_anchor, fresh),
            fresh_anchor: fresh,
            orbit_pivot: s.orbit_pivot,
        }
    }
}

/// The orbit pivot after one frame: set to the freshly resolved anchor by a
/// performed pivot selection, cleared by a performed deselection, and left
/// untouched by every other outcome.
pub open spec fn spec_pivot_after(
    s: CameraControlState,
    input: FrameInput,
    prev: CursorCommand,
) -> Option<Vec3Bits> {
    match spec_frame_action(s, input, prev) {
        FrameAction::SetPivot { pivot } => Some(pivot),
        FrameAction::ClearPivot => None,
        _ => s.orbit_pivot,
    }
}

impl CameraControlState {
    /// A fresh control state for the two camera entities, with no orbit
    /// pivot set.
    pub fn new(
        perspective_camera: u64,
        orthographic_camera: u64,
        mode: ProjectionMode,
    ) -> (r: CameraControlState)
        ensures
            r.perspective_camera == perspective_camera,
            r.orthographic_camera == orthographic_camera,
            r.mode == mode,
            r.orbit_pivot is None,
    {
        CameraControlState { perspective_camera, orthographic_camera, mode, orbit_pivot: None }
    }

    /// The camera entity the active projection mode controls.
    pub open spec fn spec_active_camera(self) -> u64 {
        if self.mode == ProjectionMode::Orthographic {
            self.orthographic_camera
        } else {
            self.perspective_camera
        }
    }

    /// Looks up the camera entity selected by the active mode.
    pub fn active_camera(&self) -> (r: u64)
        ensures
            r == self.spec_active_camera(),
    {
        match self.mode {
            ProjectionMode::Orthographic => self.orthographic_camera,
            ProjectionMode::Perspective => self.perspective_camera,
        }
    }

    /// Switches the active projection mode (an external mode switch; the
    /// pipeline itself only reads the mode). Nothing else changes — in
    /// particular the orbit pivot survives a mode switch.
    pub fn set_mode(&mut self, mode: ProjectionMode)
        ensures
            final(self).mode == mode,
            final(self).perspective_camera == old(self).perspective_camera,
            final(self).orthographic_camera == old(self).orthographic_camera,
            final(self).orbit_pivot == old(self).orbit_pivot,
    {
        self.mode = mode;
    }

    /// One frame of the pipeline: classifies the gesture, resolves and
    /// persists the anchor, applies the pivot lifecycle to the state, and
    /// tells the host what to do with the frame's command. The camera
    /// entities and the mode never change; the pivot changes exactly as
    /// `spec_pivot_after` says.
    pub fn update_cursor_command(
        &mut self,
        input: &FrameInput,
        prev: &CursorCommand,
    ) -> (r: FrameAction)
        ensures
            r == spec_frame_action(*old(self), *input, *prev),
            final(self).orbit_pivot == spec_pivot_after(*old(self), *input, *prev),
            final(self).mode == old(self).mode,
            final(self).perspective_camera == old(self).perspective_camera,
            final(self).orthographic_camera == old(self).orthographic_camera,
    {
        if !input.cursor_in_window {
            return FrameAction::WriteDefault;
        }
        let command_type = get_command_type(input.gesture, prev.command_type, self.mode);
        if command_type == CommandType::Inactive {
            return FrameAction::WriteDefault;
        }
        if !input.ray_available {
            return FrameAction::KeepPrevious;
        }
        let fresh = resolve_anchor(&input.candidates);
        if command_type == CommandType::SelectOrbitPivot {
            self.orbit_pivot = Some(fresh);
            return FrameAction::SetPivot { pivot: fresh };
        }
        if command_type == CommandType::DeselectOrbitPivot {
            self.orbit_pivot = None;
            return FrameAction::ClearPivot;
        }
        FrameAction::Solve {
            mode: self.mode,
            command_type,
            anchor: persisted_anchor(prev.cursor_anchor, fresh),
            fresh_anchor: fresh,
            orbit_pivot: self.orbit_pivot,
        }
    }
}

/// The frame's command, when the action determines it without a numeric
/// solve: the default command for a reset, the previous command carried over
/// when no view ray was available, and the bare select/deselect commands
/// (the default tagged with the pivot gesture, no anchor, no motion). For a
/// `Solve` action the command comes from the motion solver instead, and this
/// returns `None`.
pub fn resolved_command(action: &FrameAction, prev: &CursorCommand) -> (r: Option<CursorCommand>)
    ensures
        r == match *action {
            FrameAction::WriteDefault => Some(spec_default_command()),
            FrameAction::KeepPrevious => Some(*prev),
            FrameAction::SetPivot { .. } => Some(
                CursorCommand {
                    command_type: CommandType::SelectOrbitPivot,
                    ..spec_default_command()
                },
            ),
            FrameAction::ClearPivot => Some(
                CursorCommand {
                    command_type: CommandType::DeselectOrbitPivot,
                    ..spec_default_command()
                },
            ),
            FrameAction::Solve { .. } => None::<CursorCommand>,
        },
{
    match action {
        FrameAction::WriteDefault => Some(CursorCommand::default()),
        FrameAction::KeepPrevious => Some(*prev),
        FrameAction::SetPivot { .. } => {
            let mut c = CursorCommand::default();
            c.command_type = CommandType::SelectOrbitPivot;
            Some(c)
        },
        FrameAction::ClearPivot => {
            let mut c = CursorCommand::default();
            c.command_type = CommandType::DeselectOrbitPivot;
            Some(c)
        },
        FrameAction::Solve { .. } => None,
    }
}

/// Anchor stability across a drag: as long as the previous frame's command
/// carries an anchor, a frame that solves a motion gesture solves it against
/// exactly that anchor; a freshly resolved point is adopted only when no
/// anchor is stored (a gesture boundary). This is what keeps a multi-frame
/// pan from drifting while the camera it re-picks against is itself moving.
pub proof fn lemma_anchor_stability(
    s: CameraControlState,
    input: FrameInput,
    prev: CursorCommand,
)
    ensures
        spec_frame_action(s, input, prev) matches FrameAction::Solve { anchor, .. } ==> anchor
            == spec_persisted_anchor(prev.cursor_anchor, spec_resolve_anchor(input.candidates)),
        prev.cursor_anchor matches Some(stored) ==> (spec_frame_action(s, input, prev)
            matches FrameAction::Solve { anchor, .. } ==> anchor == stored),
{
}

/// A solve is only ever asked for a motion or zoom gesture, in the state's
/// own mode: never for `Inactive` and never for the pivot operations, which
/// the pipeline handles itself.
pub proof fn lemma_solve_carries_motion_gesture(
    s: CameraControlState,
    input: FrameInput,
    prev: CursorCommand,
)
    ensures
        spec_frame_action(s, input, prev) matches FrameAction::Solve {
            mode,
            command_type,
            ..
        } ==> {
            &&& mode == s.mode
            &&& command_type != CommandType::Inactive
            &&& command_type != CommandType::SelectOrbitPivot
            &&& command_type != CommandType::DeselectOrbitPivot
        },
{
}

/// The pivot stays finite: if the stored pivot (when set) is finite and the
/// frame's anchor candidates are finite, the pivot after the frame (when
/// still set) is finite too — the pipeline can only store a point that came
/// out of anchor resolution, and that chain preserves finiteness.
pub proof fn lemma_pivot_stays_finite(
    s: CameraControlState,
    input: FrameInput,
    prev: CursorCommand,
)
    requires
        s.orbit_pivot matches Some(p) ==> finite_point(p),
        input.candidates.hit matches Some(p) ==> finite_point(p),
        input.candidates.ground matches Some(p) ==> finite_point(p),
        finite_point(input.candidates.sphere),
    ensures
        spec_pivot_after(s, input, prev) matches Some(p) ==> finite_point(p),
{
    crate::anchor::lemma_resolve_anchor_finite(input.candidates);
}

/// Pivot lifecycle: a performed pivot selection stores exactly the freshly
/// resolved anchor, a performed deselection clears the pivot, and a frame
/// whose gesture is neither selection nor deselection leaves the pivot as it
/// was — no motion or zoom gesture can move it.
pub proof fn lemma_pivot_lifecycle(
    s: CameraControlState,
    input: FrameInput,
    prev: CursorCommand,
)
    ensures
        spec_frame_action(s, input, prev) matches FrameAction::SetPivot { pivot } ==> {
            &&& spec_pivot_after(s, input, prev) == Some(pivot)
            &&& pivot == spec_resolve_anchor(input.candidates)
            &&& spec_classify(input.gesture, prev.command_type, s.mode)
                == CommandType::SelectOrbitPivot
        },
        spec_frame_action(s, input, prev) == FrameAction::ClearPivot ==> spec_pivot_after(
            s,
            input,
            prev,
        ) is None,
        (spec_classify(input.gesture, prev.command_type, s.mode) != CommandType::SelectOrbitPivot
            && spec_classify(input.gesture, prev.command_type, s.mode)
            != CommandType::DeselectOrbitPivot) ==> spec_pivot_after(s, input, prev)
            == s.orbit_pivot,
{
}

} // verus!
