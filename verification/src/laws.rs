//! Grid-level consequences of the transition rule, stated and proved once
//! for every universe: locality of the next state, stability of still
//! lifes, the birth rule seen at grid level, and the corner wraparound of
//! the torus.

use vstd::arithmetic::div_mod::lemma_mod_bound;
use vstd::arithmetic::div_mod::lemma_small_mod;
use vstd::prelude::*;

use crate::cell::{next_cell, Cell};
use crate::universe::{
    flat_index, lemma_flat_index_decomposes, lemma_flat_index_in_range, lemma_flat_index_inverse,
    live_neighbours, neighbour_value, next_generation, wrapped_neighbour,
};

verus! {

/// Whether buffer position `i` holds the cell `(row, column)` itself or one
/// of its 8 toroidal Moore neighbours.
pub open spec fn in_neighbourhood(width: int, height: int, row: int, column: int, i: int) -> bool {
    exists|delta_row: int, delta_column: int|
        (delta_row == height - 1 || delta_row == 0 || delta_row == 1) && (delta_column == width - 1
            || delta_column == 0 || delta_column == 1) && i == #[trigger] wrapped_neighbour(
            width,
            height,
            row,
            column,
            delta_row,
            delta_column,
        )
}

/// Two buffers that agree on a cell's neighbourhood give that neighbour the
/// same weight, for any of the offsets the neighbour sum uses.
proof fn lemma_neighbour_agrees(
    a: Seq<Cell>,
    b: Seq<Cell>,
    width: int,
    height: int,
    row: int,
    column: int,
    delta_row: int,
    delta_column: int,
)
    requires
        width >= 1,
        height >= 1,
        a.len() == width * height,
        b.len() == width * height,
        delta_row == height - 1 || delta_row == 0 || delta_row == 1,
        delta_column == width - 1 || delta_column == 0 || delta_column == 1,
        forall|i: int|
            0 <= i < a.len() && in_neighbourhood(width, height, row, column, i) ==> a[i] == b[i],
    ensures
        neighbour_value(a, width, height, row, column, delta_row, delta_column) == neighbour_value(
            b,
            width,
            height,
            row,
            column,
            delta_row,
            delta_column,
        ),
{
    lemma_mod_bound(row + delta_row, height);
    lemma_mod_bound(column + delta_column, width);
    let neighbour_row = (row + delta_row) % height;
    let neighbour_column = (column + delta_column) % width;
    lemma_flat_index_in_range(neighbour_row, neighbour_column, width, height);
    let k = wrapped_neighbour(width, height, row, column, delta_row, delta_column);
    assert(in_neighbourhood(width, height, row, column, k));
    assert(a[k] == b[k]);
}

/// Locality: after a generation step, the state of a cell depends only on
/// the pre-step state of that cell and of its 8 toroidal neighbours. Two
/// buffers that agree on the neighbourhood — however much they differ
/// elsewhere — step to the same state at that cell.
pub proof fn lemma_next_state_is_local(
    a: Seq<Cell>,
    b: Seq<Cell>,
    width: int,
    height: int,
    row: int,
    column: int,
)
    requires
        width >= 1,
        height >= 1,
        a.len() == width * height,
        b.len() == width * height,
        0 <= row < height,
        0 <= column < width,
        forall|i: int|
            0 <= i < a.len() && in_neighbourhood(width, height, row, column, i) ==> a[i] == b[i],
    ensures
        next_generation(a, width, height)[flat_index(row, column, width)] == next_generation(
            b,
            width,
            height,
        )[flat_index(row, column, width)],
{
    lemma_flat_index_in_range(row, column, width, height);
    lemma_flat_index_decomposes(row, column, width);
    let k = flat_index(row, column, width);
    lemma_neighbour_agrees(a, b, width, height, row, column, height - 1, width - 1);
    lemma_neighbour_agrees(a, b, width, height, row, column, height - 1, 0);
    lemma_neighbour_agrees(a, b, width, height, row, column, height - 1, 1);
    lemma_neighbour_agrees(a, b, width, height, row, column, 0, width - 1);
    lemma_neighbour_agrees(a, b, width, height, row, column, 0, 1);
    lemma_neighbour_agrees(a, b, width, height, row, column, 1, width - 1);
    lemma_neighbour_agrees(a, b, width, height, row, column, 1, 0);
    lemma_neighbour_agrees(a, b, width, height, row, column, 1, 1);
    assert(live_neighbours(a, width, height, row, column) == live_neighbours(
        b,
        width,
        height,
        row,
        column,
    ));
    lemma_small_mod(row as nat, height as nat);
    lemma_small_mod(column as nat, width as nat);
    assert(k == wrapped_neighbour(width, height, row, column, 0, 0));
    assert(in_neighbourhood(width, height, row, column, k));
    assert(a[k] == b[k]);
}

/// Still lifes are fixed points: a buffer in which every cell already
/// equals its successor under the rule is returned unchanged, as a whole,
/// by a generation step.
pub proof fn lemma_still_life_is_fixed(cells: Seq<Cell>, width: int, height: int)
    requires
        width >= 1,
        height >= 1,
        cells.len() == width * height,
        forall|row: int, column: int|
            0 <= row < height && 0 <= column < width ==> next_cell(
                cells[flat_index(row, column, width)],
                #[trigger] live_neighbours(cells, width, height, row, column),
            ) == cells[flat_index(row, column, width)],
    ensures
        next_generation(cells, width, height) == cells,
{
    assert forall|i: int| 0 <= i < cells.len() implies next_generation(cells, width, height)[i]
        == cells[i] by {
        lemma_flat_index_inverse(i, width, height);
        assert(next_cell(
            cells[flat_index(i / width, i % width, width)],
            live_neighbours(cells, width, height, i / width, i % width),
        ) == cells[flat_index(i / width, i % width, width)]);
    }
    assert(next_generation(cells, width, height) =~= cells);
}

/// The birth rule, seen at grid level: after a step, a dead cell with
/// exactly 3 live neighbours is alive, and one with 2 or 4 stays dead.
pub proof fn lemma_birth_rule(cells: Seq<Cell>, width: int, height: int, row: int, column: int)
    requires
        width >= 1,
        height >= 1,
        cells.len() == width * height,
        0 <= row < height,
        0 <= column < width,
        cells[flat_index(row, column, width)] is Dead,
    ensures
        live_neighbours(cells, width, height, row, column) == 3 ==> next_generation(
            cells,
            width,
            height,
        )[flat_index(row, column, width)] is Alive,
        live_neighbours(cells, width, height, row, column) == 2 || live_neighbours(
            cells,
            width,
            height,
            row,
            column,
        ) == 4 ==> next_generation(cells, width, height)[flat_index(row, column, width)] is Dead,
{
    lemma_flat_index_in_range(row, column, width, height);
    lemma_flat_index_decomposes(row, column, width);
}

/// Toroidal wraparound at the corner: on a 3x3 grid the cell at `(0, 0)`
/// counts the opposite corner `(2, 2)` among its neighbours, so raising
/// that corner from dead to alive raises the count at `(0, 0)` by exactly
/// one.
pub proof fn lemma_corner_wraparound(a: Seq<Cell>, b: Seq<Cell>)
    requires
        a.len() == 9,
        b.len() == 9,
        forall|i: int| 0 <= i < 9 && i != 8 ==> a[i] == b[i],
        a[8] is Dead,
        b[8] is Alive,
    ensures
        live_neighbours(b, 3, 3, 0, 0) == live_neighbours(a, 3, 3, 0, 0) + 1,
{
    assert(a[1] == b[1]);
    assert(a[2] == b[2]);
    assert(a[3] == b[3]);
    assert(a[4] == b[4]);
    assert(a[5] == b[5]);
    assert(a[6] == b[6]);
    assert(a[7] == b[7]);
}

} // verus!
