//! Anchor resolution: the world point the pointer is "grabbing".

use vstd::prelude::*;
use crate::command::{finite_point, Vec3Bits};

verus! {

/// The candidate anchor points for one frame. The host's ray picker supplies
/// `hit` when the view ray meets scene geometry. When it does not, the host
/// intersects the view ray with the ground plane and supplies `ground` if
/// that intersection is valid (the ray not parallel to the plane, the
/// distance positive and within the selection limit). `sphere` is always
/// available: the point one camera-height (at least one unit) along the view
/// ray, a usable anchor even when looking at empty sky.
#[derive(Clone, Copy, Debug, PartialEq)]
pub struct AnchorCandidates {
    /// Nearest ray/scene-surface intersection, if any.
    pub hit: Option<Vec3Bits>,
    /// Valid ground-plane intersection of the view ray, if any.
    pub ground: Option<Vec3Bits>,
    /// Fallback point on the virtual sphere around the camera.
    pub sphere: Vec3Bits,
}

/// The fallback chain: the scene hit when there is one, else the ground-plane
/// intersection when it is valid, else the virtual-sphere point. Total —
/// every frame has an anchor.
pub open spec fn spec_resolve_anchor(c: AnchorCandidates) -> Vec3Bits {
    if c.hit is Some {
        c.hit->0
    } else if c.ground is Some {
        c.ground->0
    } else {
        c.sphere
    }
}

/// Picks the anchor for this frame from the candidates, by the fallback
/// chain: scene hit, then ground plane, then virtual sphere.
pub fn resolve_anchor(c: &AnchorCandidates) -> (r: Vec3Bits)
    ensures
        r == spec_resolve_anchor(*c),
{
    match c.hit {
        Some(p) => p,
        None => match c.ground {
            Some(p) => p,
            None => c.sphere,
        },
    }
}

/// The resolved anchor is always one of the three supplied candidates — the
/// fallback chain is total and invents no point of its own.
pub proof fn lemma_resolve_anchor_total(c: AnchorCandidates)
    ensures
        c.hit == Some(spec_resolve_anchor(c)) || c.ground == Some(spec_resolve_anchor(c))
            || spec_resolve_anchor(c) == c.sphere,
{
}

/// Anchor resolution introduces no non-finite value: whenever every
/// candidate point has finite, non-NaN coordinates, so does the resolved
/// anchor. The host guarantees the candidates (the ground-plane intersection
/// is distance-capped, the sphere radius is the camera height); the chain
/// then never manufactures an infinity or a NaN of its own.
pub proof fn lemma_resolve_anchor_finite(c: AnchorCandidates)
    requires
        c.hit matches Some(p) ==> finite_point(p),
        c.ground matches Some(p) ==> finite_point(p),
        finite_point(c.sphere),
    ensures
        finite_point(spec_resolve_anchor(c)),
{
}

/// Anchor persistence across a drag: the anchor stored by the previous
/// frame's command is reused verbatim; only at a gesture boundary, when no
/// anchor is stored, is the freshly resolved point adopted. This keeps a
/// multi-frame pan or orbit pinned to the point grabbed at gesture start
/// even while the camera itself moves.
pub open spec fn spec_persisted_anchor(stored: Option<Vec3Bits>, fresh: Vec3Bits) -> Vec3Bits {
    if stored is Some {
        stored->0
    } else {
        fresh
    }
}

/// Returns the stored anchor if the previous frame carried one, else the
/// freshly resolved point.
pub fn persisted_anchor(stored: Option<Vec3Bits>, fresh: Vec3Bits) -> (r: Vec3Bits)
    ensures
        r == spec_persisted_anchor(stored, fresh),
{
    match stored {
        Some(p) => p,
        None => fresh,
    }
}

} // verus!
