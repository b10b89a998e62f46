use game_of_life::{Cell, CreationError, Universe};

/// Builds a `width` x `height` universe whose only live cells are the given
/// `(row, column)` positions.
fn universe_with_alive(width: u32, height: u32, alive: &[(u32, u32)]) -> Universe {
    let mut cells = vec![Cell::Dead; (width * height) as usize];
    for &(row, column) in alive {
        cells[(row * width + column) as usize] = Cell::Alive;
    }
    match Universe::new(width, height, Some(cells)) {
        Ok(universe) => universe,
        Err(_) => panic!("valid dimensions were rejected"),
    }
}

/// The `(row, column)` positions of the live cells of a universe.
fn alive_positions(universe: &Universe) -> Vec<(u32, u32)> {
    let width = universe.width();
    let mut alive = Vec::new();
    for (i, cell) in universe.cells().iter().enumerate() {
        if *cell == Cell::Alive {
            alive.push((i as u32 / width, i as u32 % width));
        }
    }
    alive
}

#[test]
fn construction_rejects_zero_width() {
    assert_eq!(
        Universe::new(0, 4, None).err(),
        Some(CreationError::InvalidDimensions)
    );
}

#[test]
fn construction_rejects_zero_height() {
    assert_eq!(
        Universe::new(4, 0, None).err(),
        Some(CreationError::InvalidDimensions)
    );
}

#[test]
fn construction_rejects_zero_both() {
    assert_eq!(
        Universe::new(0, 0, Some(vec![Cell::Dead; 3])).err(),
        Some(CreationError::InvalidDimensions)
    );
}

#[test]
fn construction_rejects_wrong_buffer_length() {
    assert_eq!(
        Universe::new(3, 3, Some(vec![Cell::Dead; 8])).err(),
        Some(CreationError::LengthMismatch)
    );
    assert_eq!(
        Universe::new(3, 3, Some(vec![Cell::Dead; 10])).err(),
        Some(CreationError::LengthMismatch)
    );
}

#[test]
fn construction_keeps_supplied_buffer() {
    let cells = vec![
        Cell::Alive,
        Cell::Dead,
        Cell::Dead,
        Cell::Alive,
        Cell::Alive,
        Cell::Dead,
    ];
    let universe = Universe::new(3, 2, Some(cells.clone())).unwrap();
    assert_eq!(universe.width(), 3);
    assert_eq!(universe.height(), 2);
    assert_eq!(universe.cells(), &cells);
}

#[test]
fn construction_default_pattern_every_third_cell() {
    let universe = Universe::new(3, 3, None).unwrap();
    let expected = vec![
        Cell::Alive,
        Cell::Dead,
        Cell::Dead,
        Cell::Alive,
        Cell::Dead,
        Cell::Dead,
        Cell::Alive,
        Cell::Dead,
        Cell::Dead,
    ];
    assert_eq!(universe.cells(), &expected);
}

#[test]
fn tick_preserves_geometry_and_length() {
    let mut universe = Universe::new(7, 4, None).unwrap();
    universe.tick();
    assert_eq!(universe.width(), 7);
    assert_eq!(universe.height(), 4);
    assert_eq!(universe.cells().len(), 28);
}

#[test]
fn still_life_block_is_unchanged() {
    let block = &[(1, 1), (1, 2), (2, 1), (2, 2)];
    let mut universe = universe_with_alive(4, 4, block);
    let before = universe.cells().clone();
    universe.tick();
    assert_eq!(universe.cells(), &before);
    universe.tick();
    assert_eq!(universe.cells(), &before);
}

#[test]
fn blinker_oscillates_with_period_two() {
    let horizontal = &[(1, 0), (1, 1), (1, 2)];
    let mut universe = universe_with_alive(5, 5, horizontal);
    let start = universe.cells().clone();

    universe.tick();
    let vertical = universe_with_alive(5, 5, &[(0, 1), (1, 1), (2, 1)]);
    assert_eq!(universe.cells(), vertical.cells());
    assert_ne!(universe.cells(), &start);

    universe.tick();
    assert_eq!(universe.cells(), &start);
}

#[test]
fn dead_cell_with_three_neighbours_is_born() {
    let mut universe = universe_with_alive(5, 5, &[(1, 1), (1, 2), (2, 1)]);
    assert_eq!(universe.live_neighbour_count(2, 2), 3);
    universe.tick();
    assert_eq!(universe.cells()[2 * 5 + 2], Cell::Alive);
}

#[test]
fn dead_cell_with_two_neighbours_stays_dead() {
    let mut universe = universe_with_alive(5, 5, &[(1, 1), (1, 2), (2, 1)]);
    assert_eq!(universe.live_neighbour_count(0, 1), 2);
    universe.tick();
    assert_eq!(universe.cells()[1], Cell::Dead);
}

#[test]
fn dead_cell_with_four_neighbours_stays_dead() {
    let mut universe = universe_with_alive(5, 5, &[(1, 1), (1, 3), (3, 1), (3, 3)]);
    assert_eq!(universe.live_neighbour_count(2, 2), 4);
    universe.tick();
    assert_eq!(universe.cells()[2 * 5 + 2], Cell::Dead);
}

#[test]
fn live_cell_underpopulation_and_overpopulation_die() {
    // a lone live cell has no live neighbour and dies
    let mut lone = universe_with_alive(5, 5, &[(2, 2)]);
    assert_eq!(lone.live_neighbour_count(2, 2), 0);
    lone.tick();
    assert_eq!(alive_positions(&lone), Vec::<(u32, u32)>::new());

    // a live cell surrounded by more than 3 live neighbours dies
    let mut crowded = universe_with_alive(5, 5, &[(2, 2), (1, 1), (1, 3), (3, 1), (3, 3)]);
    assert_eq!(crowded.live_neighbour_count(2, 2), 4);
    crowded.tick();
    assert_eq!(crowded.cells()[2 * 5 + 2], Cell::Dead);
}

#[test]
fn corner_counts_opposite_corner_through_wraparound() {
    let without = universe_with_alive(3, 3, &[]);
    let with = universe_with_alive(3, 3, &[(2, 2)]);
    let count_without = without.live_neighbour_count(0, 0);
    let count_with = with.live_neighbour_count(0, 0);
    assert_eq!(count_without, 0);
    assert_eq!(count_with, count_without + 1);
}

#[test]
fn edge_neighbourhoods_wrap_on_all_sides() {
    // (0, 0) on a 3x3 grid sees cells on the far row and far column
    let universe = universe_with_alive(3, 3, &[(0, 2), (2, 0), (2, 2)]);
    assert_eq!(universe.live_neighbour_count(0, 0), 3);
}

#[test]
fn next_state_depends_only_on_neighbourhood() {
    // two universes agreeing on the neighbourhood of (3, 3) but nowhere else
    let shared = &[(2, 2), (3, 3), (4, 4), (2, 4)];
    let mut plain = universe_with_alive(7, 7, shared);
    let mut noisy = universe_with_alive(
        7,
        7,
        &[(2, 2), (3, 3), (4, 4), (2, 4), (0, 0), (0, 1), (6, 6), (5, 0)],
    );
    plain.tick();
    noisy.tick();
    assert_eq!(plain.cells()[3 * 7 + 3], noisy.cells()[3 * 7 + 3]);
}

#[test]
fn one_by_one_torus_counts_itself_eight_times() {
    let alive = universe_with_alive(1, 1, &[(0, 0)]);
    assert_eq!(alive.live_neighbour_count(0, 0), 8);

    // 8 neighbours is overpopulation, so the lone cell dies
    let mut universe = alive;
    universe.tick();
    assert_eq!(universe.cells()[0], Cell::Dead);

    let dead = universe_with_alive(1, 1, &[]);
    assert_eq!(dead.live_neighbour_count(0, 0), 0);
}

#[test]
fn one_row_torus_counts_itself_twice() {
    // with height 1 the up and down offsets both wrap to the cell's own row,
    // so a lone live cell sees itself twice, has 2 "neighbours", and survives
    let mut universe = universe_with_alive(3, 1, &[(0, 1)]);
    assert_eq!(universe.live_neighbour_count(0, 1), 2);
    universe.tick();
    assert_eq!(universe.cells()[1], Cell::Alive);
}

#[test]
fn default_universe_keeps_invariant_over_many_ticks() {
    let mut universe = Universe::new(6, 5, None).unwrap();
    for _ in 0..10 {
        universe.tick();
        assert_eq!(universe.width(), 6);
        assert_eq!(universe.height(), 5);
        assert_eq!(universe.cells().len(), 30);
    }
}
