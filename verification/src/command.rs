//! The per-frame camera command and the types it is built from.

use vstd::prelude::*;

verus! {

/// A world-space vector or point, carried as the IEEE-754 bit patterns of
/// its three single-precision coordinates. The pipeline's decision logic
/// stores, compares and routes these values; it never does arithmetic on
/// them, so the exact bits the host produced round-trip unchanged.
#[derive(Clone, Copy, Debug, PartialEq, Eq, Structural)]
pub struct Vec3Bits {
    pub x: u32,
    pub y: u32,
    pub z: u32,
}

/// The bit pattern of 0.0f32 (also the all-zero vector's coordinates).
pub const ZERO_BITS: u32 = 0x0000_0000;

/// The bit pattern of 1.0f32.
pub const ONE_BITS: u32 = 0x3F80_0000;

/// Whether a single-precision bit pattern denotes a finite number: finite
/// values are exactly those whose eight exponent bits are not all ones
/// (all-ones exponents are the infinities and NaNs).
pub open spec fn finite_bits(b: u32) -> bool {
    (b >> 23) & 0xFF != 0xFF
}

/// All three coordinates are finite, non-NaN numbers.
pub open spec fn finite_point(p: Vec3Bits) -> bool {
    finite_bits(p.x) && finite_bits(p.y) && finite_bits(p.z)
}

impl Vec3Bits {
    /// The zero vector.
    pub fn zero() -> (r: Vec3Bits)
        ensures
            r == (Vec3Bits { x: ZERO_BITS, y: ZERO_BITS, z: ZERO_BITS }),
    {
        Vec3Bits { x: ZERO_BITS, y: ZERO_BITS, z: ZERO_BITS }
    }

    /// Tests that every coordinate is a finite, non-NaN number.
    pub fn is_finite(&self) -> (r: bool)
        ensures
            r == finite_point(*self),
    {
        (self.x >> 23) & 0xFF != 0xFF && (self.y >> 23) & 0xFF != 0xFF && (self.z >> 23) & 0xFF
            != 0xFF
    }
}

/// A rotation quaternion, carried as the bit patterns of its four
/// single-precision components.
#[derive(Clone, Copy, Debug, PartialEq, Eq, Structural)]
pub struct QuatBits {
    pub x: u32,
    pub y: u32,
    pub z: u32,
    pub w: u32,
}

impl QuatBits {
    /// The identity rotation (x = y = z = 0.0, w = 1.0).
    pub fn identity() -> (r: QuatBits)
        ensures
            r == (QuatBits { x: ZERO_BITS, y: ZERO_BITS, z: ZERO_BITS, w: ONE_BITS }),
    {
        QuatBits { x: ZERO_BITS, y: ZERO_BITS, z: ZERO_BITS, w: ONE_BITS }
    }
}

/// Which projection the active camera uses. Exactly one camera is active at
/// a time, selected by this mode.
#[derive(Clone, Copy, Debug, PartialEq, Eq, Structural)]
pub enum ProjectionMode {
    Perspective,
    Orthographic,
}

/// The gesture the current frame's inputs call for. Exactly one is active
/// per frame.
#[derive(Clone, Copy, Debug, PartialEq, Eq, Structural)]
pub enum CommandType {
    Inactive,
    Pan,
    Orbit,
    ScaleZoom,
    TranslationZoom,
    FovZoom,
    SelectOrbitPivot,
    DeselectOrbitPivot,
}

/// The single per-frame output: deltas for the external transform-application
/// step to apply to the active camera. It is rebuilt whole every frame,
/// never merged with the previous frame's value.
#[derive(Clone, Copy, Debug, PartialEq)]
pub struct CursorCommand {
    /// World-space offset to add to the camera position this frame.
    pub translation_delta: Vec3Bits,
    /// Incremental rotation to compose onto the camera orientation.
    pub rotation_delta: QuatBits,
    /// Orthographic zoom-scale adjustment (bit pattern of an f32).
    pub scale_delta: u32,
    /// Perspective field-of-view adjustment (bit pattern of an f32).
    pub fov_delta: u32,
    /// The world point held under the pointer, carried forward so the next
    /// frame's solve reuses the same anchor instead of re-picking.
    pub cursor_anchor: Option<Vec3Bits>,
    pub command_type: CommandType,
}

/// The command a frame with no active gesture produces: no motion, identity
/// rotation, no anchor.
pub open spec fn spec_default_command() -> CursorCommand {
    CursorCommand {
        translation_delta: Vec3Bits { x: ZERO_BITS, y: ZERO_BITS, z: ZERO_BITS },
        rotation_delta: QuatBits { x: ZERO_BITS, y: ZERO_BITS, z: ZERO_BITS, w: ONE_BITS },
        scale_delta: ZERO_BITS,
        fov_delta: ZERO_BITS,
        cursor_anchor: None,
        command_type: CommandType::Inactive,
    }
}

impl Default for CursorCommand {
    fn default() -> (r: CursorCommand)
        ensures
            r == spec_default_command(),
    {
        CursorCommand {
            translation_delta: Vec3Bits::zero(),
            rotation_delta: QuatBits::identity(),
            scale_delta: ZERO_BITS,
            fov_delta: ZERO_BITS,
            cursor_anchor: None,
            command_type: CommandType::Inactive,
        }
    }
}

/// Whether a gesture holds a world point fixed under the pointer. Only such
/// gestures carry the anchor forward to the next frame.
pub open spec fn spec_is_anchoring(c: CommandType) -> bool {
    c == CommandType::Pan || c == CommandType::Orbit
}

pub fn is_anchoring_gesture(c: CommandType) -> (r: bool)
    ensures
        r == spec_is_anchoring(c),
{
    match c {
        CommandType::Pan => true,
        CommandType::Orbit => true,
        _ => false,
    }
}

/// The orbit solver's pitch clamp: when composing the pitch term would tip
/// the camera's up vector past the maximum pitch angle from world-up, the
/// pitch term is discarded and only the yaw-composed rotation is kept. Yaw
/// is never clamped. The host evaluates the angle test on the composed
/// candidate and passes the verdict in.
pub fn clamped_orbit_rotation(
    composed: QuatBits,
    yaw_only: QuatBits,
    pitch_exceeded: bool,
) -> (r: QuatBits)
    ensures
        r == if pitch_exceeded {
            yaw_only
        } else {
            composed
        },
{
    if pitch_exceeded {
        yaw_only
    } else {
        composed
    }
}

/// The command a motion solver starts from: the given gesture tag, the
/// anchor carried exactly when the gesture anchors, and no deltas yet. The
/// solver then fills in the numeric deltas.
pub fn command_shell(command_type: CommandType, anchor: Vec3Bits) -> (r: CursorCommand)
    ensures
        r.command_type == command_type,
        r.cursor_anchor == if spec_is_anchoring(command_type) {
            Some(anchor)
        } else {
            None::<Vec3Bits>
        },
        r.translation_delta == spec_default_command().translation_delta,
        r.rotation_delta == spec_default_command().rotation_delta,
        r.scale_delta == spec_default_command().scale_delta,
        r.fov_delta == spec_default_command().fov_delta,
{
    let anchoring = is_anchoring_gesture(command_type);
    CursorCommand {
        translation_delta: Vec3Bits::zero(),
        rotation_delta: QuatBits::identity(),
        scale_delta: ZERO_BITS,
        fov_delta: ZERO_BITS,
        cursor_anchor: if anchoring { Some(anchor) } else { None },
        command_type,
    }
}

} // verus!
