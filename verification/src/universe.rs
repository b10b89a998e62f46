//! The universe: grid dimensions, the cell buffer, toroidal neighbour
//! counting, and the generation-advance operation.

use vstd::arithmetic::div_mod::lemma_fundamental_div_mod;
use vstd::arithmetic::div_mod::lemma_fundamental_div_mod_converse;
use vstd::prelude::*;

use crate::cell::{cell_value, evolve, next_cell, Cell};

verus! {

/// Row-major position of `(row, column)` in a grid `width` cells wide.
pub open spec fn flat_index(row: int, column: int, width: int) -> int {
    row * width + column
}

/// Buffer position of the neighbour of `(row, column)` at offset
/// `(delta_row, delta_column)`, with both coordinates wrapping modulo the
/// grid size, so that the grid behaves as a torus.
pub open spec fn wrapped_neighbour(
    width: int,
    height: int,
    row: int,
    column: int,
    delta_row: int,
    delta_column: int,
) -> int {
    flat_index((row + delta_row) % height, (column + delta_column) % width, width)
}

/// Weight of the neighbour of `(row, column)` at offset `(delta_row,
/// delta_column)` on the torus.
pub open spec fn neighbour_value(
    cells: Seq<Cell>,
    width: int,
    height: int,
    row: int,
    column: int,
    delta_row: int,
    delta_column: int,
) -> int {
    cell_value(cells[wrapped_neighbour(width, height, row, column, delta_row, delta_column)])
}

/// Number of live cells among the 8 Moore neighbours of `(row, column)`.
/// The offsets `height - 1` and `width - 1` stand for one step up and one
/// step left: adding a dimension minus one and reducing modulo that
/// dimension avoids negative coordinates. The centre offset `(0, 0)` is
/// excluded; on a grid of width or height 1 some of the 8 wrapped positions
/// coincide with the cell itself, and each still contributes its own term.
pub open spec fn live_neighbours(
    cells: Seq<Cell>,
    width: int,
    height: int,
    row: int,
    column: int,
) -> int {
    neighbour_value(cells, width, height, row, column, height - 1, width - 1)
        + neighbour_value(cells, width, height, row, column, height - 1, 0)
        + neighbour_value(cells, width, height, row, column, height - 1, 1)
        + neighbour_value(cells, width, height, row, column, 0, width - 1)
        + neighbour_value(cells, width, height, row, column, 0, 1)
        + neighbour_value(cells, width, height, row, column, 1, width - 1)
        + neighbour_value(cells, width, height, row, column, 1, 0)
        + neighbour_value(cells, width, height, row, column, 1, 1)
}

/// The whole next generation: every cell is replaced by the rule applied to
/// its current state and its current neighbour count, all read from the same
/// pre-step buffer.
pub open spec fn next_generation(cells: Seq<Cell>, width: int, height: int) -> Seq<Cell> {
    Seq::new(
        cells.len(),
        |i: int| next_cell(cells[i], live_neighbours(cells, width, height, i / width, i % width)),
    )
}

/// The buffer a universe starts from when the caller supplies none: every
/// third cell, counting row-major from the top-left corner, starts alive.
pub open spec fn default_pattern(len: nat) -> Seq<Cell> {
    Seq::new(len, |i: int| if i % 3 == 0 { Cell::Alive } else { Cell::Dead })
}

/// Why a universe could not be constructed.
#[derive(Clone, Copy, Debug, PartialEq, Eq, Structural)]
pub enum CreationError {
    /// The requested width or height was zero.
    InvalidDimensions,
    /// A supplied initial buffer's length was not `width * height`.
    LengthMismatch,
}

/// A row-major index stays strictly below the buffer length.
pub proof fn lemma_flat_index_in_range(row: int, column: int, width: int, height: int)
    requires
        0 <= row < height,
        0 <= column < width,
    ensures
        0 <= flat_index(row, column, width) < width * height,
{
    assert(0 <= row * width + column < width * height) by (nonlinear_arith)
        requires
            0 <= row < height,
            0 <= column < width,
    ;
}

/// Dividing a buffer position by the width recovers the row and column it
/// encodes: `flat_index` and `(i / width, i % width)` are mutual inverses.
pub proof fn lemma_flat_index_inverse(i: int, width: int, height: int)
    requires
        width >= 1,
        height >= 1,
        0 <= i < width * height,
    ensures
        0 <= i / width < height,
        0 <= i % width < width,
        flat_index(i / width, i % width, width) == i,
{
    lemma_fundamental_div_mod(i, width);
    assert(0 <= i % width < width);
    assert(i == width * (i / width) + i % width);
    assert(0 <= i / width < height) by (nonlinear_arith)
        requires
            width >= 1,
            height >= 1,
            0 <= i < width * height,
            i == width * (i / width) + i % width,
            0 <= i % width < width,
    ;
    assert((i / width) * width + i % width == width * (i / width) + i % width) by (nonlinear_arith);
}

/// The coordinates behind a row-major index: `(row * width + column) / width`
/// is the row and the remainder is the column.
pub proof fn lemma_flat_index_decomposes(row: int, column: int, width: int)
    requires
        width >= 1,
        0 <= row,
        0 <= column < width,
    ensures
        flat_index(row, column, width) / width == row,
        flat_index(row, column, width) % width == column,
{
    lemma_fundamental_div_mod_converse(row * width + column, width, row, column);
}

/// A fixed-size toroidal grid of cells, advanced one generation at a time.
pub struct Universe {
    width: u32,
    height: u32,
    cells: Vec<Cell>,
}

impl Universe {
    /// The grid width, as contracts see it.
    pub closed spec fn spec_width(&self) -> u32 {
        self.width
    }

    /// The grid height, as contracts see it.
    pub closed spec fn spec_height(&self) -> u32 {
        self.height
    }

    /// The cell buffer, as contracts see it: row-major, length
    /// `width * height`.
    pub closed spec fn grid(&self) -> Seq<Cell> {
        self.cells@
    }

    /// The structural invariant every universe keeps for its whole lifetime:
    /// both dimensions are positive and the buffer holds exactly one cell
    /// per grid position.
    pub open spec fn well_formed(&self) -> bool {
        &&& self.spec_width() >= 1
        &&& self.spec_height() >= 1
        &&& self.grid().len() == self.spec_width() * self.spec_height()
    }

    /// Builds a universe of the given dimensions. A supplied buffer is used
    /// as is; with none, the grid starts from the default pattern. A zero
    /// width or height is rejected with `InvalidDimensions`; a supplied
    /// buffer of the wrong length with `LengthMismatch`.
    pub fn new(width: u32, height: u32, initial: Option<Vec<Cell>>) -> (result: Result<
        Universe,
        CreationError,
    >)
        requires
            width * height <= usize::MAX,
        ensures
            result is Ok <==> (width >= 1 && height >= 1 && (initial matches Some(cells)
                ==> cells@.len() == width * height)),
            (width == 0 || height == 0) ==> result == Err::<Universe, CreationError>(
                CreationError::InvalidDimensions,
            ),
            (width >= 1 && height >= 1 && (initial matches Some(cells) && cells@.len() != width
                * height)) ==> result == Err::<Universe, CreationError>(
                CreationError::LengthMismatch,
            ),
            result matches Ok(universe) ==> {
                &&& universe.well_formed()
                &&& universe.spec_width() == width
                &&& universe.spec_height() == height
                &&& (initial matches Some(cells) ==> universe.grid() == cells@)
                &&& (initial is None ==> universe.grid() == default_pattern(
                    (width * height) as nat,
                ))
            },
    {
        if width == 0 || height == 0 {
            return Err(CreationError::InvalidDimensions);
        }
        let total: usize = (width as usize) * (height as usize);
        match initial {
            Some(cells) => {
                if cells.len() != total {
                    Err(CreationError::LengthMismatch)
                } else {
                    Ok(Universe { width, height, cells })
                }
            },
            None => {
                let mut cells: Vec<Cell> = Vec::new();
                let mut i: usize = 0;
                while i < total
                    invariant
                        i <= total,
                        cells@.len() == i,
                        forall|j: int|
                            0 <= j < i ==> cells@[j] == (if j % 3 == 0 {
                                Cell::Alive
                            } else {
                                Cell::Dead
                            }),
                    decreases total - i,
                {
                    if i % 3 == 0 {
                        cells.push(Cell::Alive);
                    } else {
                        cells.push(Cell::Dead);
                    }
                    i += 1;
                }
                proof {
                    assert(cells@ =~= default_pattern((width * height) as nat));
                }
                Ok(Universe { width, height, cells })
            },
        }
    }

    /// The grid width.
    pub fn width(&self) -> (width: u32)
        ensures
            width == self.spec_width(),
    {
        self.width
    }

    /// The grid height.
    pub fn height(&self) -> (height: u32)
        ensures
            height == self.spec_height(),
    {
        self.height
    }

    /// Read-only view of the current cell buffer; all mutation goes through
    /// `tick`.
    pub fn cells(&self) -> (cells: &Vec<Cell>)
        ensures
            cells@ == self.grid(),
    {
        &self.cells
    }

    /// Buffer position of the cell at `(row, column)`.
    fn get_index(&self, row: u32, column: u32) -> (index: usize)
        requires
            self.well_formed(),
            row < self.spec_height(),
            column < self.spec_width(),
        ensures
            index == flat_index(row as int, column as int, self.spec_width() as int),
            index < self.grid().len(),
    {
        proof {
            lemma_flat_index_in_range(
                row as int,
                column as int,
                self.spec_width() as int,
                self.spec_height() as int,
            );
        }
        // reading the length pins the whole buffer, and with it every
        // row-major index, inside usize range
        let _length = self.cells.len();
        (row as usize) * (self.width as usize) + (column as usize)
    }

    /// Weight of one wrapped neighbour of `(row, column)`. The offset is at
    /// most the dimension, so the wrapped coordinate is computed without
    /// overflow in 64 bits.
    fn neighbour(&self, row: u32, column: u32, delta_row: u32, delta_column: u32) -> (value: u8)
        requires
            self.well_formed(),
            row < self.spec_height(),
            column < self.spec_width(),
            delta_row <= self.spec_height(),
            delta_column <= self.spec_width(),
        ensures
            value as int == neighbour_value(
                self.grid(),
                self.spec_width() as int,
                self.spec_height() as int,
                row as int,
                column as int,
                delta_row as int,
                delta_column as int,
            ),
            value <= 1,
    {
        let neighbour_row = (((row as u64) + (delta_row as u64)) % (self.height as u64)) as u32;
        let neighbour_column = (((column as u64) + (delta_column as u64)) % (self.width as u64))
            as u32;
        let index = self.get_index(neighbour_row, neighbour_column);
        match self.cells[index] {
            Cell::Alive => 1,
            Cell::Dead => 0,
        }
    }

    /// Number of live cells among the 8 toroidal Moore neighbours of
    /// `(row, column)`; the cell itself is not counted as the centre, though
    /// on a grid of width or height 1 it can appear among the wrapped
    /// neighbour positions.
    pub fn live_neighbour_count(&self, row: u32, column: u32) -> (count: u8)
        requires
            self.well_formed(),
            row < self.spec_height(),
            column < self.spec_width(),
        ensures
            count as int == live_neighbours(
                self.grid(),
                self.spec_width() as int,
                self.spec_height() as int,
                row as int,
                column as int,
            ),
            count <= 8,
    {
        let up = self.height - 1;
        let left = self.width - 1;
        let mut count: u8 = 0;
        count += self.neighbour(row, column, up, left);
        count += self.neighbour(row, column, up, 0);
        count += self.neighbour(row, column, up, 1);
        count += self.neighbour(row, column, 0, left);
        count += self.neighbour(row, column, 0, 1);
        count += self.neighbour(row, column, 1, left);
        count += self.neighbour(row, column, 1, 0);
        count += self.neighbour(row, column, 1, 1);
        count
    }

    /// Computes the whole next-generation buffer from the current one,
    /// reading only pre-step state.
    fn next_cells(&self) -> (next: Vec<Cell>)
        requires
            self.well_formed(),
        ensures
            next@ == next_generation(
                self.grid(),
                self.spec_width() as int,
                self.spec_height() as int,
            ),
    {
        let width = self.width;
        let height = self.height;
        let ghost stepped = next_generation(
            self.grid(),
            self.spec_width() as int,
            self.spec_height() as int,
        );
        let mut next: Vec<Cell> = Vec::new();
        let mut row: u32 = 0;
        while row < height
            invariant
                self.well_formed(),
                width == self.spec_width(),
                height == self.spec_height(),
                stepped == next_generation(self.grid(), width as int, height as int),
                stepped.len() == self.grid().len(),
                row <= height,
                next@.len() == row * width,
                next@ == stepped.subrange(0, next@.len() as int),
            decreases height - row,
        {
            let mut column: u32 = 0;
            while column < width
                invariant
                    self.well_formed(),
                    width == self.spec_width(),
                    height == self.spec_height(),
                    stepped == next_generation(self.grid(), width as int, height as int),
                    stepped.len() == self.grid().len(),
                    row < height,
                    column <= width,
                    next@.len() == row * width + column,
                    next@ == stepped.subrange(0, next@.len() as int),
                decreases width - column,
            {
                let index = self.get_index(row, column);
                let cell = self.cells[index];
                let count = self.live_neighbour_count(row, column);
                let born = evolve(cell, count);
                proof {
                    let k = flat_index(row as int, column as int, width as int);
                    lemma_flat_index_in_range(
                        row as int,
                        column as int,
                        width as int,
                        height as int,
                    );
                    lemma_flat_index_decomposes(row as int, column as int, width as int);
                    assert(stepped[k] == next_cell(
                        self.grid()[k],
                        live_neighbours(
                            self.grid(),
                            width as int,
                            height as int,
                            row as int,
                            column as int,
                        ),
                    ));
                    assert(born == stepped[k]);
                    assert(next@.push(born) =~= stepped.subrange(0, k + 1));
                }
                next.push(born);
                column += 1;
            }
            proof {
                assert((row as int + 1) * width == row as int * width + width) by (nonlinear_arith);
            }
            row += 1;
        }
        proof {
            assert(height as int * width as int == width as int * height as int)
                by (nonlinear_arith);
            assert(next@.len() == stepped.len());
            assert(next@ =~= stepped);
        }
        next
    }

    /// Advances the universe by exactly one generation: every cell is
    /// rewritten by the rule applied to its pre-step state and pre-step
    /// neighbour count, and nothing else — neither dimension nor the buffer
    /// length — changes.
    pub fn tick(&mut self)
        requires
            old(self).well_formed(),
        ensures
            final(self).well_formed(),
            final(self).spec_width() == old(self).spec_width(),
            final(self).spec_height() == old(self).spec_height(),
            final(self).grid().len() == old(self).grid().len(),
            final(self).grid() == next_generation(
                old(self).grid(),
                old(self).spec_width() as int,
                old(self).spec_height() as int,
            ),
    {
        let next = self.next_cells();
        self.cells = next;
    }
}

} // verus!
