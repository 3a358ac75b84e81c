//! Identifiers of windows, images and entities, and where a camera renders.

use vstd::prelude::*;

verus! {

/// Identifier of a window. The primary window has id 0.
#[derive(Clone, Copy, Debug, PartialEq, Eq, Hash, Structural)]
pub struct WindowId {
    pub id: u128,
}

impl WindowId {
    /// The identifier of the primary window.
    pub fn primary() -> (r: WindowId)
        ensures
            r.id == 0,
    {
        WindowId { id: 0 }
    }
}

impl Default for WindowId {
    fn default() -> (r: WindowId)
        ensures
            r.id == 0,
    {
        WindowId::primary()
    }
}

/// Handle of an offscreen image asset.
#[derive(Clone, Copy, Debug, PartialEq, Eq, Hash, Structural)]
pub struct ImageHandle {
    pub id: u64,
}

/// An entity of the world: an index and the generation of that index.
#[derive(Clone, Copy, Debug, PartialEq, Eq, Hash, Structural)]
pub struct Entity {
    pub index: u32,
    pub generation: u32,
}

/// Where a camera renders.
#[derive(Clone, Copy, Debug, PartialEq, Eq, Hash, Structural)]
pub enum RenderTarget {
    /// Window to which the camera's view is rendered.
    Window(WindowId),
    /// Image to which the camera's view is rendered.
    Image(ImageHandle),
}

impl Default for RenderTarget {
    fn default() -> (r: RenderTarget)
        ensures
            r == RenderTarget::Window(WindowId { id: 0 }),
    {
        RenderTarget::Window(WindowId::primary())
    }
}

/// How the depth of an object relative to the camera is computed.
#[derive(Clone, Copy, Debug, PartialEq, Eq, Hash, Structural)]
pub enum DepthCalculation {
    /// Pythagorean distance; works everywhere, more expensive to compute.
    Distance,
    /// Optimization for 2D; assuming the camera points towards -Z.
    ZDifference,
}

impl Default for DepthCalculation {
    fn default() -> (r: DepthCalculation)
        ensures
            r == DepthCalculation::Distance,
    {
        DepthCalculation::Distance
    }
}

/// Whether `id` occurs in `ids`.
pub fn contains_window(ids: &Vec<WindowId>, id: WindowId) -> (r: bool)
    ensures
        r == ids@.contains(id),
{
    let mut i: usize = 0;
    while i < ids.len()
        invariant
            i <= ids@.len(),
            forall|j: int| 0 <= j < i ==> ids@[j] != id,
        decreases ids@.len() - i,
    {
        if ids[i] == id {
            return true;
        }
        i = i + 1;
    }
    false
}

/// Whether `e` occurs in `entities`.
pub fn contains_entity(entities: &Vec<Entity>, e: Entity) -> (r: bool)
    ensures
        r == entities@.contains(e),
{
    let mut i: usize = 0;
    while i < entities.len()
        invariant
            i <= entities@.len(),
            forall|j: int| 0 <= j < i ==> entities@[j] != e,
        decreases entities@.len() - i,
    {
        if entities[i] == e {
            return true;
        }
        i = i + 1;
    }
    false
}

} // verus!
