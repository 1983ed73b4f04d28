//! The no-op render backend: accepts every generation and draws nothing.

use vstd::prelude::*;
use crate::render::Render;
use crate::world::World;

verus! {

/// A backend that discards what it is given.
pub struct NoneRenderBackend {}

impl NoneRenderBackend {
    /// Create a no-op backend.
    pub fn new() -> Self {
        Self {  }
    }
}

impl Render for NoneRenderBackend {
    fn render(&mut self, _world: &World) {
    }
}

} // verus!
