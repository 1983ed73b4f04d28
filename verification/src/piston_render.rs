//! The windowed render backend's tag type. The actual window and pixel
//! drawing live with the driver, outside the grid engine; the engine only
//! hands generations across the `Render` interface.

use vstd::prelude::*;
use crate::render::Render;
use crate::world::World;

verus! {

/// The backend that stands for a window managed by the driver. The driver
/// draws directly from its event loop, so this type itself draws nothing.
pub struct PistonRenderBackend {}

impl PistonRenderBackend {
    /// Create the windowed backend's tag.
    pub fn new() -> Self {
        Self {  }
    }
}

impl Render for PistonRenderBackend {
    fn render(&mut self, _world: &World) {
    }
}

} // verus!
