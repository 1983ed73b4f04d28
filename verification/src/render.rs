//! The narrow interface between the grid engine and a display backend.

use vstd::prelude::*;
use crate::world::World;

verus! {

/// Which render backend the driver should use.
pub enum RenderBackend {
    NoOp,
    Piston,
}

/// A render backend: shown each generation once, after each update.
pub trait Render {
    /// Draw one generation of the world.
    fn render(&mut self, world: &World);
}

} // verus!
