//! The grid engine: cell states, the toroidal grid, and the transition rule.
//!
//! A `World` is owned exclusively by its driving loop: `populate` and `update`
//! are the only mutating operations and are never invoked concurrently.

use vstd::prelude::*;

verus! {

/// The state of a cell.
#[derive(Clone, Copy, PartialEq, Eq, Structural, Debug)]
pub enum CellState {
    /// A dead cell
    Dead,
    /// An alive cell
    Alive,
}

/// The errors the grid engine reports. All of them are returned as values;
/// the engine itself never aborts.
#[derive(Clone, Copy, PartialEq, Eq, Structural, Debug)]
pub enum WorldError {
    /// A width or height of zero at construction.
    InvalidDimensions,
    /// A coordinate outside `[0, width) x [0, height)`.
    OutOfBounds,
    /// A population density outside `[0, DENSITY_SCALE]`.
    InvalidDensity,
}

/// A grid as mathematics: a sequence of rows, each a sequence of cells,
/// indexed `[row][column]`.
pub type GridModel = Seq<Seq<CellState>>;

/// Population densities are fractions of this scale: a density of
/// `DENSITY_SCALE` means every cell, 0 means none.
pub const DENSITY_SCALE: u32 = 1000000;

/// The number of distinct values a density draw can take.
pub const DRAW_RANGE: u64 = 0x1_0000_0000;

/// The cell a density draw yields: alive iff the draw falls in the first
/// `density / DENSITY_SCALE` share of the draw range.
pub open spec fn cell_of_draw(draw: u32, density: u32) -> CellState {
    if (draw as int) * (DENSITY_SCALE as int) < (density as int) * (DRAW_RANGE as int) {
        CellState::Alive
    } else {
        CellState::Dead
    }
}

/// Relies on rand::random: draws one fresh pseudo-random value from the
/// thread-local generator; nothing is promised about which value comes back.
#[verifier::external_body]
fn random_u32() -> u32 {
    rand::random::<u32>()
}

/// Decide one cell from one density draw. Alive iff
/// `draw * DENSITY_SCALE < density * DRAW_RANGE`, so a density of 0 never
/// yields an alive cell and a density of `DENSITY_SCALE` always does.
pub fn cell_from_draw(draw: u32, density: u32) -> (cell: CellState)
    requires
        density <= DENSITY_SCALE,
    ensures
        cell == cell_of_draw(draw, density),
        density == 0 ==> cell == CellState::Dead,
        density == DENSITY_SCALE ==> cell == CellState::Alive,
{
    if (draw as u64) * (DENSITY_SCALE as u64) < (density as u64) * DRAW_RANGE {
        CellState::Alive
    } else {
        CellState::Dead
    }
}

/// A well-formed grid model: `h` rows of `w` cells each.
pub open spec fn grid_wf(g: GridModel, w: int, h: int) -> bool {
    &&& g.len() == h
    &&& forall|y: int| 0 <= y < h ==> (#[trigger] g[y]).len() == w
}

/// Every cell of the `w x h` grid is in state `c`.
pub open spec fn all_in_state(g: GridModel, w: int, h: int, c: CellState) -> bool {
    forall|x: int, y: int| 0 <= x < w && 0 <= y < h ==> #[trigger] g[y][x] == c
}

/// A row of `w` dead cells.
pub open spec fn dead_row(w: int) -> Seq<CellState> {
    Seq::new(w as nat, |x: int| CellState::Dead)
}

/// The `w x h` grid with every cell dead.
pub open spec fn dead_grid(w: int, h: int) -> GridModel {
    Seq::new(h as nat, |y: int| dead_row(w))
}

/// One step down an axis of length `n`, wrapping from 0 to `n - 1`.
pub open spec fn wrap_dec(i: int, n: int) -> int {
    if i == 0 {
        n - 1
    } else {
        i - 1
    }
}

/// One step up an axis of length `n`, wrapping from `n - 1` to 0.
pub open spec fn wrap_inc(i: int, n: int) -> int {
    if i == n - 1 {
        0
    } else {
        i + 1
    }
}

/// 1 if the cell at `(x, y)` is alive, else 0.
pub open spec fn alive_indicator(g: GridModel, x: int, y: int) -> int {
    if g[y][x] is Alive {
        1
    } else {
        0
    }
}

/// How many of the 8 toroidally-wrapped neighbors of `(x, y)` are alive:
/// the four axis neighbors and the four diagonals, each wrapped into
/// `[0, w) x [0, h)`.
pub open spec fn neighbor_count(g: GridModel, w: int, h: int, x: int, y: int) -> int {
    alive_indicator(g, wrap_dec(x, w), wrap_inc(y, h)) + alive_indicator(g, x, wrap_inc(y, h))
        + alive_indicator(g, wrap_inc(x, w), wrap_inc(y, h)) + alive_indicator(
        g,
        wrap_dec(x, w),
        y,
    ) + alive_indicator(g, wrap_inc(x, w), y) + alive_indicator(
        g,
        wrap_dec(x, w),
        wrap_dec(y, h),
    ) + alive_indicator(g, x, wrap_dec(y, h)) + alive_indicator(g, wrap_inc(x, w), wrap_dec(y, h))
}

/// The standard Conway rule: a cell is alive in the next generation iff it
/// has exactly 3 alive neighbors, or it is alive now and has exactly 2.
pub open spec fn next_state(c: CellState, neighbors: int) -> CellState {
    if neighbors == 3 || (neighbors == 2 && c is Alive) {
        CellState::Alive
    } else {
        CellState::Dead
    }
}

/// Row `y` of the next generation of `g`.
pub open spec fn stepped_row(g: GridModel, w: int, h: int, y: int) -> Seq<CellState> {
    Seq::new(w as nat, |x: int| next_state(g[y][x], neighbor_count(g, w, h, x, y)))
}

/// The next generation of the `w x h` grid `g`: the rule applied to every
/// cell against the same pre-step generation.
pub open spec fn stepped(g: GridModel, w: int, h: int) -> GridModel {
    Seq::new(h as nat, |y: int| stepped_row(g, w, h, y))
}

/// Toroidal wrap keeps every neighbor position on the grid: both wrapped
/// coordinates of an in-bounds coordinate are in bounds, so every cell has
/// exactly 8 neighbor positions, corners and edges included.
pub proof fn lemma_wrap_in_bounds(i: int, n: int)
    requires
        0 <= i < n,
    ensures
        0 <= wrap_dec(i, n) < n,
        0 <= wrap_inc(i, n) < n,
{
}

/// The alive-neighbor count of any cell lies in [0, 8]: it is a sum of 8
/// indicators, each 0 or 1.
pub proof fn lemma_neighbor_count_in_range(g: GridModel, w: int, h: int, x: int, y: int)
    ensures
        0 <= neighbor_count(g, w, h, x, y) <= 8,
{
}

/// Stepping is deterministic: two grids in identical states step to
/// identical states.
pub proof fn lemma_step_deterministic(g1: GridModel, g2: GridModel, w: int, h: int)
    requires
        g1 == g2,
    ensures
        stepped(g1, w, h) == stepped(g2, w, h),
{
}

/// Stepping preserves the grid's dimensions: the next generation of a
/// `w x h` grid is again `w x h`.
pub proof fn lemma_stepped_wf(g: GridModel, w: int, h: int)
    requires
        0 <= w,
        0 <= h,
    ensures
        grid_wf(stepped(g, w, h), w, h),
{
}

/// The dead grid is stable: a grid of any size with every cell dead has
/// every neighbor count 0, so no cell satisfies the rule and the next
/// generation is all dead as well.
pub proof fn lemma_all_dead_stable(g: GridModel, w: int, h: int)
    requires
        w > 0,
        h > 0,
        grid_wf(g, w, h),
        all_in_state(g, w, h, CellState::Dead),
    ensures
        all_in_state(stepped(g, w, h), w, h, CellState::Dead),
{
    assert forall|x: int, y: int|
        0 <= x < w && 0 <= y < h implies #[trigger] stepped(g, w, h)[y][x]
        == CellState::Dead by {
        lemma_wrap_in_bounds(x, w);
        lemma_wrap_in_bounds(y, h);
        assert(neighbor_count(g, w, h, x, y) == 0);
        assert(stepped(g, w, h)[y][x] == next_state(g[y][x], 0));
    }
}

/// A world: fixed dimensions and a dense 2-D array of cells.
pub struct World {
    /// Width of the world
    width: usize,
    /// Height of the world
    height: usize,
    /// Tiles of the world
    tiles: Vec<Vec<CellState>>,
}

impl View for World {
    type V = GridModel;

    closed spec fn view(&self) -> GridModel {
        self.tiles@.map_values(|row: Vec<CellState>| row@)
    }
}

impl World {
    /// Dimensions positive and the tile array exactly `height` rows of
    /// `width` cells: established by `new`, preserved by every operation.
    pub closed spec fn wf(self) -> bool {
        &&& self.width > 0
        &&& self.height > 0
        &&& grid_wf(self@, self.width as int, self.height as int)
    }

    /// The stored width.
    pub closed spec fn spec_width(self) -> usize {
        self.width
    }

    /// The stored height.
    pub closed spec fn spec_height(self) -> usize {
        self.height
    }

    /// Create a new world with all cells dead.
    ///
    /// A zero width or height is unusable and is reported as
    /// `InvalidDimensions`.
    pub fn new(width: usize, height: usize) -> (result: Result<World, WorldError>)
        ensures
            match result {
                Ok(w) => {
                    &&& width > 0 && height > 0
                    &&& w.wf()
                    &&& w.spec_width() == width
                    &&& w.spec_height() == height
                    &&& w@ == dead_grid(width as int, height as int)
                },
                Err(e) => {
                    &&& e == WorldError::InvalidDimensions
                    &&& (width == 0 || height == 0)
                },
            },
    {
        if width == 0 || height == 0 {
            return Err(WorldError::InvalidDimensions);
        }
        let mut tiles: Vec<Vec<CellState>> = Vec::new();
        let mut y: usize = 0;
        while y < height
            invariant
                y <= height,
                tiles@.len() == y,
                forall|j: int| 0 <= j < y ==> (#[trigger] tiles@[j])@ == dead_row(width as int),
            decreases height - y,
        {
            let mut row: Vec<CellState> = Vec::new();
            let mut x: usize = 0;
            while x < width
                invariant
                    x <= width,
                    row@.len() == x,
                    forall|i: int| 0 <= i < x ==> #[trigger] row@[i] == CellState::Dead,
                decreases width - x,
            {
                row.push(CellState::Dead);
                x += 1;
            }
            proof {
                assert(row@ =~= dead_row(width as int));
            }
            tiles.push(row);
            y += 1;
        }
        let world = World { width, height, tiles };
        proof {
            assert(world@ =~~= dead_grid(width as int, height as int));
        }
        Ok(world)
    }

    /// The width the world was created with.
    pub fn get_width(&self) -> (w: usize)
        ensures
            w == self.spec_width(),
    {
        self.width
    }

    /// The height the world was created with.
    pub fn get_height(&self) -> (h: usize)
        ensures
            h == self.spec_height(),
    {
        self.height
    }

    /// Read the cell at `(x, y)`; out-of-range coordinates are reported as
    /// `OutOfBounds`.
    pub fn get_tile(&self, x: usize, y: usize) -> (result: Result<CellState, WorldError>)
        requires
            self.wf(),
        ensures
            x < self.spec_width() && y < self.spec_height() ==> result == Ok::<
                CellState,
                WorldError,
            >(self@[y as int][x as int]),
            x >= self.spec_width() || y >= self.spec_height() ==> result == Err::<
                CellState,
                WorldError,
            >(WorldError::OutOfBounds),
    {
        if x >= self.width || y >= self.height {
            return Err(WorldError::OutOfBounds);
        }
        proof {
            assert(self.tiles@[y as int]@ == self@[y as int]);
        }
        Ok(self.tiles[y][x])
    }

    /// Write the cell at `(x, y)`; out-of-range coordinates are reported as
    /// `OutOfBounds` and leave the world unchanged.
    pub fn set_tile(&mut self, x: usize, y: usize, cell_state: CellState) -> (result: Result<
        (),
        WorldError,
    >)
        requires
            old(self).wf(),
        ensures
            final(self).wf(),
            final(self).spec_width() == old(self).spec_width(),
            final(self).spec_height() == old(self).spec_height(),
            x < old(self).spec_width() && y < old(self).spec_height() ==> {
                &&& result == Ok::<(), WorldError>(())
                &&& final(self)@ == old(self)@.update(
                    y as int,
                    old(self)@[y as int].update(x as int, cell_state),
                )
            },
            x >= old(self).spec_width() || y >= old(self).spec_height() ==> {
                &&& result == Err::<(), WorldError>(WorldError::OutOfBounds)
                &&& final(self)@ == old(self)@
            },
    {
        if x >= self.width || y >= self.height {
            return Err(WorldError::OutOfBounds);
        }
        proof {
            assert(self.tiles@[y as int]@ == self@[y as int]);
        }
        self.tiles[y][x] = cell_state;
        proof {
            assert(self@ =~~= old(self)@.update(
                y as int,
                old(self)@[y as int].update(x as int, cell_state),
            ));
        }
        Ok(())
    }

    /// Whether the cell at in-bounds `(x, y)` is alive.
    fn tile_alive(&self, x: usize, y: usize) -> (alive: bool)
        requires
            self.wf(),
            x < self.spec_width(),
            y < self.spec_height(),
        ensures
            alive == (self@[y as int][x as int] is Alive),
    {
        proof {
            assert(self.tiles@[y as int]@ == self@[y as int]);
        }
        match self.tiles[y][x] {
            CellState::Alive => true,
            CellState::Dead => false,
        }
    }

    /// `wrap_dec` on an axis of length `n`.
    fn dec_wrapped(i: usize, n: usize) -> (r: usize)
        requires
            0 < n,
            i < n,
        ensures
            r < n,
            r as int == wrap_dec(i as int, n as int),
    {
        if i == 0 {
            n - 1
        } else {
            i - 1
        }
    }

    /// `wrap_inc` on an axis of length `n`.
    fn inc_wrapped(i: usize, n: usize) -> (r: usize)
        requires
            0 < n,
            i < n,
        ensures
            r < n,
            r as int == wrap_inc(i as int, n as int),
    {
        if i == n - 1 {
            0
        } else {
            i + 1
        }
    }

    /// Count the alive cells among the 8 toroidally-wrapped neighbors of
    /// `(x, y)`.
    fn count_alive_neighbors(&self, x: usize, y: usize) -> (count: u8)
        requires
            self.wf(),
            x < self.spec_width(),
            y < self.spec_height(),
        ensures
            count as int == neighbor_count(
                self@,
                self.spec_width() as int,
                self.spec_height() as int,
                x as int,
                y as int,
            ),
            count <= 8,
    {
        let left_x = Self::dec_wrapped(x, self.width);
        let right_x = Self::inc_wrapped(x, self.width);
        let top_y = Self::inc_wrapped(y, self.height);
        let bottom_y = Self::dec_wrapped(y, self.height);

        let mut count: u8 = 0;
        if self.tile_alive(left_x, top_y) {
            count += 1;
        }
        if self.tile_alive(x, top_y) {
            count += 1;
        }
        if self.tile_alive(right_x, top_y) {
            count += 1;
        }
        if self.tile_alive(left_x, y) {
            count += 1;
        }
        if self.tile_alive(right_x, y) {
            count += 1;
        }
        if self.tile_alive(left_x, bottom_y) {
            count += 1;
        }
        if self.tile_alive(x, bottom_y) {
            count += 1;
        }
        if self.tile_alive(right_x, bottom_y) {
            count += 1;
        }
        count
    }

    /// Populate the world randomly: each cell is set alive independently
    /// with probability `density / DENSITY_SCALE`, in row-major scan order.
    ///
    /// A density above `DENSITY_SCALE` is rejected as `InvalidDensity` and
    /// leaves the world unchanged. A density of 0 leaves every cell dead; a
    /// density of `DENSITY_SCALE` makes every cell alive.
    pub fn populate(&mut self, density: u32) -> (result: Result<(), WorldError>)
        requires
            old(self).wf(),
        ensures
            final(self).wf(),
            final(self).spec_width() == old(self).spec_width(),
            final(self).spec_height() == old(self).spec_height(),
            density > DENSITY_SCALE ==> {
                &&& result == Err::<(), WorldError>(WorldError::InvalidDensity)
                &&& final(self)@ == old(self)@
            },
            density <= DENSITY_SCALE ==> result == Ok::<(), WorldError>(()),
            density == 0 ==> all_in_state(
                final(self)@,
                final(self).spec_width() as int,
                final(self).spec_height() as int,
                CellState::Dead,
            ),
            density == DENSITY_SCALE ==> all_in_state(
                final(self)@,
                final(self).spec_width() as int,
                final(self).spec_height() as int,
                CellState::Alive,
            ),
    {
        if density > DENSITY_SCALE {
            return Err(WorldError::InvalidDensity);
        }
        let width = self.width;
        let height = self.height;
        let mut new_tiles: Vec<Vec<CellState>> = Vec::new();
        let mut y: usize = 0;
        while y < height
            invariant
                density <= DENSITY_SCALE,
                y <= height,
                new_tiles@.len() == y,
                forall|j: int| 0 <= j < y ==> (#[trigger] new_tiles@[j])@.len() == width,
                density == 0 ==> forall|j: int, i: int|
                    0 <= j < y && 0 <= i < width ==> #[trigger] new_tiles@[j]@[i]
                        == CellState::Dead,
                density == DENSITY_SCALE ==> forall|j: int, i: int|
                    0 <= j < y && 0 <= i < width ==> #[trigger] new_tiles@[j]@[i]
                        == CellState::Alive,
            decreases height - y,
        {
            let mut row: Vec<CellState> = Vec::new();
            let mut x: usize = 0;
            while x < width
                invariant
                    density <= DENSITY_SCALE,
                    x <= width,
                    row@.len() == x,
                    density == 0 ==> forall|i: int|
                        0 <= i < x ==> #[trigger] row@[i] == CellState::Dead,
                    density == DENSITY_SCALE ==> forall|i: int|
                        0 <= i < x ==> #[trigger] row@[i] == CellState::Alive,
                decreases width - x,
            {
                let draw = random_u32();
                let cell = cell_from_draw(draw, density);
                row.push(cell);
                x += 1;
            }
            new_tiles.push(row);
            y += 1;
        }
        self.tiles = new_tiles;
        Ok(())
    }

    /// Advance the world by one generation.
    ///
    /// Every cell of the new generation is the Conway rule applied to that
    /// cell of the old generation and its 8 wrapped neighbors, all read from
    /// the pre-step state: the new grid is computed in a fresh buffer and
    /// swapped in whole.
    pub fn update(&mut self)
        requires
            old(self).wf(),
        ensures
            final(self).wf(),
            final(self).spec_width() == old(self).spec_width(),
            final(self).spec_height() == old(self).spec_height(),
            final(self)@ == stepped(
                old(self)@,
                old(self).spec_width() as int,
                old(self).spec_height() as int,
            ),
    {
        let width = self.width;
        let height = self.height;
        let ghost g = self@;
        let mut new_tiles: Vec<Vec<CellState>> = Vec::new();
        let mut y: usize = 0;
        while y < height
            invariant
                self.wf(),
                self@ == g,
                width == self.spec_width(),
                height == self.spec_height(),
                y <= height,
                new_tiles@.len() == y,
                forall|j: int|
                    0 <= j < y ==> (#[trigger] new_tiles@[j])@ == stepped_row(
                        g,
                        width as int,
                        height as int,
                        j,
                    ),
            decreases height - y,
        {
            let mut row: Vec<CellState> = Vec::new();
            let mut x: usize = 0;
            while x < width
                invariant
                    self.wf(),
                    self@ == g,
                    width == self.spec_width(),
                    height == self.spec_height(),
                    x <= width,
                    y < height,
                    row@.len() == x,
                    forall|i: int|
                        0 <= i < x ==> #[trigger] row@[i] == next_state(
                            g[y as int][i],
                            neighbor_count(g, width as int, height as int, i, y as int),
                        ),
                decreases width - x,
            {
                let neighbors = self.count_alive_neighbors(x, y);
                let alive_now = self.tile_alive(x, y);
                let cell = if neighbors == 3 || (neighbors == 2 && alive_now) {
                    CellState::Alive
                } else {
                    CellState::Dead
                };
                row.push(cell);
                x += 1;
            }
            proof {
                assert(row@ =~= stepped_row(g, width as int, height as int, y as int));
            }
            new_tiles.push(row);
            y += 1;
        }
        self.tiles = new_tiles;
        proof {
            assert(self@ =~~= stepped(g, width as int, height as int));
        }
    }
}

} // verus!

