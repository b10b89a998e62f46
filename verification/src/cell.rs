//! The binary state of one grid cell and the per-cell transition rule.

use vstd::prelude::*;

verus! {

/// State of a single cell: `Dead` or `Alive`, nothing more.
#[derive(Clone, Copy, Debug, PartialEq, Eq, Structural)]
pub enum Cell {
    Dead,
    Alive,
}

/// Weight of a cell in a neighbour sum: an `Alive` cell counts 1, a `Dead` one 0.
pub open spec fn cell_value(cell: Cell) -> int {
    match cell {
        Cell::Dead => 0,
        Cell::Alive => 1,
    }
}

/// The Game of Life rule for one cell, given its number of live neighbours:
/// a live cell survives exactly with 2 or 3 live neighbours, a dead cell is
/// born exactly with 3, and every other combination leaves the cell dead.
pub open spec fn next_cell(cell: Cell, live_neighbours: int) -> Cell {
    match cell {
        Cell::Alive => {
            if live_neighbours < 2 {
                Cell::Dead
            } else if live_neighbours <= 3 {
                Cell::Alive
            } else {
                Cell::Dead
            }
        },
        Cell::Dead => {
            if live_neighbours == 3 {
                Cell::Alive
            } else {
                Cell::Dead
            }
        },
    }
}

/// Applies the transition rule to one cell, as five mutually exclusive,
/// collectively exhaustive cases over the cell's state and neighbour count.
pub fn evolve(cell: Cell, live_neighbours: u8) -> (next: Cell)
    ensures
        next == next_cell(cell, live_neighbours as int),
{
    match (cell, live_neighbours) {
        // underpopulation kills a live cell
        (Cell::Alive, n) if n < 2 => Cell::Dead,
        // a live cell with 2 or 3 live neighbours survives
        (Cell::Alive, 2) | (Cell::Alive, 3) => Cell::Alive,
        // overpopulation kills a live cell
        (Cell::Alive, _) => Cell::Dead,
        // a dead cell with exactly 3 live neighbours is born
        (Cell::Dead, 3) => Cell::Alive,
        // every other dead cell stays dead
        (Cell::Dead, _) => Cell::Dead,
    }
}

} // verus!
