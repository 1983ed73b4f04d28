use gol::world::{cell_from_draw, CellState, World, WorldError, DENSITY_SCALE};

fn dead_world(width: usize, height: usize) -> World {
    World::new(width, height).expect("dimensions are positive")
}

fn assert_every_cell(world: &World, expected: CellState) {
    for y in 0..world.get_height() {
        for x in 0..world.get_width() {
            assert_eq!(world.get_tile(x, y), Ok(expected));
        }
    }
}

#[test]
fn new_creates_dead_grid() {
    let world = dead_world(3, 2);
    assert_eq!(world.get_width(), 3);
    assert_eq!(world.get_height(), 2);
    assert_every_cell(&world, CellState::Dead);
}

#[test]
fn new_rejects_zero_width() {
    assert!(matches!(World::new(0, 5), Err(WorldError::InvalidDimensions)));
}

#[test]
fn new_rejects_zero_height() {
    assert!(matches!(World::new(5, 0), Err(WorldError::InvalidDimensions)));
}

#[test]
fn new_rejects_zero_both() {
    assert!(matches!(World::new(0, 0), Err(WorldError::InvalidDimensions)));
}

#[test]
fn get_set_roundtrip() {
    let mut world = dead_world(4, 4);
    assert_eq!(world.set_tile(1, 2, CellState::Alive), Ok(()));
    assert_eq!(world.get_tile(1, 2), Ok(CellState::Alive));
    assert_eq!(world.get_tile(2, 1), Ok(CellState::Dead));
    assert_eq!(world.set_tile(1, 2, CellState::Dead), Ok(()));
    assert_eq!(world.get_tile(1, 2), Ok(CellState::Dead));
}

#[test]
fn get_tile_rejects_x_at_width() {
    let world = dead_world(3, 3);
    assert_eq!(world.get_tile(3, 0), Err(WorldError::OutOfBounds));
}

#[test]
fn get_tile_rejects_y_at_height() {
    let world = dead_world(3, 3);
    assert_eq!(world.get_tile(0, 3), Err(WorldError::OutOfBounds));
}

#[test]
fn get_tile_rejects_far_out_of_range() {
    let world = dead_world(3, 3);
    assert_eq!(world.get_tile(usize::MAX, 0), Err(WorldError::OutOfBounds));
    assert_eq!(world.get_tile(0, usize::MAX), Err(WorldError::OutOfBounds));
}

#[test]
fn set_tile_rejects_x_at_width() {
    let mut world = dead_world(3, 3);
    assert_eq!(
        world.set_tile(3, 0, CellState::Alive),
        Err(WorldError::OutOfBounds)
    );
}

#[test]
fn set_tile_rejects_y_at_height() {
    let mut world = dead_world(3, 3);
    assert_eq!(
        world.set_tile(0, 3, CellState::Alive),
        Err(WorldError::OutOfBounds)
    );
}

#[test]
fn set_tile_out_of_range_leaves_world_unchanged() {
    let mut world = dead_world(3, 3);
    assert_eq!(
        world.set_tile(usize::MAX, usize::MAX, CellState::Alive),
        Err(WorldError::OutOfBounds)
    );
    assert_every_cell(&world, CellState::Dead);
}

#[test]
fn populate_zero_density_yields_all_dead() {
    let mut world = dead_world(6, 5);
    world.set_tile(2, 2, CellState::Alive).unwrap();
    assert_eq!(world.populate(0), Ok(()));
    assert_every_cell(&world, CellState::Dead);
}

#[test]
fn populate_full_density_yields_all_alive() {
    let mut world = dead_world(6, 5);
    assert_eq!(world.populate(DENSITY_SCALE), Ok(()));
    assert_every_cell(&world, CellState::Alive);
}

#[test]
fn populate_rejects_excess_density() {
    let mut world = dead_world(4, 4);
    world.set_tile(1, 1, CellState::Alive).unwrap();
    assert_eq!(
        world.populate(DENSITY_SCALE + 1),
        Err(WorldError::InvalidDensity)
    );
    assert_eq!(world.get_tile(1, 1), Ok(CellState::Alive));
}

#[test]
fn populate_keeps_dimensions() {
    let mut world = dead_world(7, 3);
    assert_eq!(world.populate(DENSITY_SCALE / 2), Ok(()));
    assert_eq!(world.get_width(), 7);
    assert_eq!(world.get_height(), 3);
}

#[test]
fn cell_from_draw_density_boundaries() {
    assert_eq!(cell_from_draw(0, 0), CellState::Dead);
    assert_eq!(cell_from_draw(u32::MAX, 0), CellState::Dead);
    assert_eq!(cell_from_draw(0, DENSITY_SCALE), CellState::Alive);
    assert_eq!(cell_from_draw(u32::MAX, DENSITY_SCALE), CellState::Alive);
}

#[test]
fn cell_from_draw_half_density_threshold() {
    let half: u32 = DENSITY_SCALE / 2;
    // draw * DENSITY_SCALE < half * 2^32 exactly when draw < 2^31
    assert_eq!(cell_from_draw(2147483647, half), CellState::Alive);
    assert_eq!(cell_from_draw(2147483648, half), CellState::Dead);
    assert_eq!(cell_from_draw(u32::MAX, half), CellState::Dead);
}

#[test]
fn update_keeps_dimensions() {
    let mut world = dead_world(9, 4);
    world.set_tile(3, 2, CellState::Alive).unwrap();
    world.update();
    assert_eq!(world.get_width(), 9);
    assert_eq!(world.get_height(), 4);
}

#[test]
fn update_is_deterministic() {
    let alive = [(1usize, 1usize), (2, 1), (3, 1), (3, 2), (2, 3)];
    let mut first = dead_world(8, 8);
    let mut second = dead_world(8, 8);
    for &(x, y) in alive.iter() {
        first.set_tile(x, y, CellState::Alive).unwrap();
        second.set_tile(x, y, CellState::Alive).unwrap();
    }
    first.update();
    second.update();
    for y in 0..8 {
        for x in 0..8 {
            assert_eq!(first.get_tile(x, y), second.get_tile(x, y));
        }
    }
}

#[test]
fn dead_grid_stays_dead() {
    let mut world = dead_world(5, 7);
    world.update();
    assert_every_cell(&world, CellState::Dead);
    world.update();
    assert_every_cell(&world, CellState::Dead);
}

#[test]
fn populate_half_density_mixes_states() {
    let mut world = dead_world(50, 50);
    assert_eq!(world.populate(DENSITY_SCALE / 2), Ok(()));
    let mut alive: usize = 0;
    for y in 0..world.get_height() {
        for x in 0..world.get_width() {
            if world.get_tile(x, y) == Ok(CellState::Alive) {
                alive += 1;
            }
        }
    }
    assert!(alive > 0);
    assert!(alive < 50 * 50);
}
