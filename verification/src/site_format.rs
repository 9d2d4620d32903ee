//! Marker components and identity types of the site model that the viewer's
//! camera pipeline is hosted in. The scene graph tags its entities with
//! these markers; the pipeline itself never reads past the tag.

use vstd::prelude::*;

verus! {

/// Tags an entity as a placed model.
#[derive(Clone, Copy, Debug, PartialEq, Eq, Structural)]
pub struct ModelMarker;

/// Tags an entity as a model description (a reusable definition that model
/// instances refer to).
#[derive(Clone, Copy, Debug, PartialEq, Eq, Structural)]
pub struct ModelDescriptionMarker;

/// Tags an entity as a model instance (one placement of a description).
#[derive(Clone, Copy, Debug, PartialEq, Eq, Structural)]
pub struct ModelInstanceMarker;

/// Top-level properties of a site.
#[derive(Clone, Debug, PartialEq)]
pub struct SiteProperties {
    pub name: String,
}

/// An identifier type that site elements may refer to each other by.
pub trait RefTrait: Ord + Eq + Copy + Send + Sync + 'static {
}

impl RefTrait for u32 {

}

} // verus!
