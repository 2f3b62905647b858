//! The geometry of the background: a grid of quads that fills the viewport,
//! as a vertex list and a triangle-strip index list.

use vstd::prelude::*;
use crate::opengl::DebugFlags;

verus! {

/// The largest number of indices a grid may have: every index must fit in
/// sixteen bits.
pub const MAX_GRID_INDICES: usize = 65536;

/// A corner of a grid cell. The cell is `cell_column` cells right of the
/// left edge of the viewport and `cell_row` cells above its bottom edge;
/// `right` and `upper` pick the corner of that cell.
#[derive(Clone, Copy, Debug, PartialEq, Eq, Structural)]
pub struct TileVertex {
    pub cell_column: usize,
    pub cell_row: usize,
    pub right: bool,
    pub upper: bool,
}

/// Why a grid cannot be built.
#[derive(Clone, Copy, Debug, PartialEq, Eq, Structural)]
pub enum GridError {
    /// The grid has more corners than sixteen-bit indices can address.
    TooLarge,
}

/// The first index of the quad in row `row` and column `col`.
pub open spec fn quad_base(row: int, col: int, columns: int) -> int {
    (row * columns + col) * 4
}

/// The place in the strip of corner `corner` of a quad: the strip runs
/// second corner, third, first, fourth.
pub open spec fn strip_offset(corner: int) -> int {
    if corner == 0 {
        1
    } else if corner == 1 {
        2
    } else if corner == 2 {
        0
    } else {
        3
    }
}

/// Vertex number `k` of a grid with `columns` columns: quads come row by
/// row, four corners each, counter-clockwise from the lower left.
pub open spec fn vertex_at(columns: int, k: int) -> TileVertex {
    TileVertex {
        cell_column: ((k / 4) % columns) as usize,
        cell_row: ((k / 4) / columns) as usize,
        right: k % 4 == 1 || k % 4 == 2,
        upper: k % 4 == 2 || k % 4 == 3,
    }
}

/// Index number `k` of a grid.
pub open spec fn index_at(k: int) -> int {
    (k / 4) * 4 + strip_offset(k % 4)
}

pub open spec fn grid_len(rows: int, columns: int) -> int {
    rows * columns * 4
}

pub open spec fn grid_vertices(rows: int, columns: int) -> Seq<TileVertex> {
    Seq::new(grid_len(rows, columns) as nat, |k: int| vertex_at(columns, k))
}

pub open spec fn grid_indices(rows: int, columns: int) -> Seq<u16> {
    Seq::new(grid_len(rows, columns) as nat, |k: int| index_at(k) as u16)
}

/// The vertex and index lists of the background, rebuilt on every draw.
#[derive(Debug)]
pub struct BackgroundTiles {
    pub vertices: Vec<TileVertex>,
    pub indices: Vec<u16>,
}

impl BackgroundTiles {
    /// A background with nothing to draw yet.
    pub fn new() -> (out: Self)
        ensures
            out.vertices@.len() == 0,
            out.indices@.len() == 0,
    {
        BackgroundTiles { vertices: Vec::new(), indices: Vec::new() }
    }

    /// Rebuilds both lists for a grid of `rows` by `columns` quads. A grid
    /// with more than `MAX_GRID_INDICES` corners is refused and leaves the
    /// lists as they were.
    pub fn draw(&mut self, rows: usize, columns: usize) -> (out: Result<(), GridError>)
        ensures
            match out {
                Ok(_) => {
                    &&& grid_len(rows as int, columns as int) <= MAX_GRID_INDICES
                    &&& final(self).vertices@ == grid_vertices(rows as int, columns as int)
                    &&& final(self).indices@ == grid_indices(rows as int, columns as int)
                },
                Err(e) => {
                    &&& e == GridError::TooLarge
                    &&& grid_len(rows as int, columns as int) > MAX_GRID_INDICES
                    &&& final(self).vertices@ == old(self).vertices@
                    &&& final(self).indices@ == old(self).indices@
                },
            },
    {
        let quads_max: usize = MAX_GRID_INDICES / 4;
        if rows != 0 && columns != 0 {
            if rows > quads_max || columns > quads_max {
                assert(rows * columns * 4 > MAX_GRID_INDICES) by (nonlinear_arith)
                    requires
                        rows >= 1,
                        columns >= 1,
                        rows > 16384 || columns > 16384,
                ;
                return Err(GridError::TooLarge);
            }
            assert(rows * columns <= 16384 * 16384) by (nonlinear_arith)
                requires
                    rows <= 16384,
                    columns <= 16384,
            ;
            if rows * columns > quads_max {
                return Err(GridError::TooLarge);
            }
        } else {
            assert(rows * columns == 0) by (nonlinear_arith)
                requires
                    rows == 0 || columns == 0,
            ;
        }
        let mut vertices: Vec<TileVertex> = Vec::new();
        let mut indices: Vec<u16> = Vec::new();
        let mut quad: usize = 0;
        let mut i: usize = 0;
        while i < rows
            invariant
                i <= rows,
                rows * columns <= 16384,
                quad == i * columns,
                vertices@ == Seq::new((quad * 4) as nat, |k: int| vertex_at(columns as int, k)),
                indices@ == Seq::new((quad * 4) as nat, |k: int| index_at(k) as u16),
            decreases rows - i,
        {
            let mut j: usize = 0;
            while j < columns
                invariant
                    i < rows,
                    j <= columns,
                    rows * columns <= 16384,
                    quad == i * columns + j,
                    vertices@ == Seq::new((quad * 4) as nat, |k: int| vertex_at(columns as int, k)),
                    indices@ == Seq::new((quad * 4) as nat, |k: int| index_at(k) as u16),
                decreases columns - j,
            {
                proof {
                    assert(i * columns + columns <= rows * columns) by (nonlinear_arith)
                        requires
                            i < rows,
                    ;
                    vstd::arithmetic::div_mod::lemma_fundamental_div_mod_converse(
                        quad as int,
                        columns as int,
                        i as int,
                        j as int,
                    );
                }
                vertices.push(TileVertex { cell_column: j, cell_row: i, right: false, upper: false });
                vertices.push(TileVertex { cell_column: j, cell_row: i, right: true, upper: false });
                vertices.push(TileVertex { cell_column: j, cell_row: i, right: true, upper: true });
                vertices.push(TileVertex { cell_column: j, cell_row: i, right: false, upper: true });
                let base_index: u16 = (quad * 4) as u16;
                indices.push(base_index + 1);
                indices.push(base_index + 2);
                indices.push(base_index);
                indices.push(base_index + 3);
                quad = quad + 1;
                j = j + 1;
                assert(vertices@ =~= Seq::new(
                    (quad * 4) as nat,
                    |k: int| vertex_at(columns as int, k),
                ));
                assert(indices@ =~= Seq::new((quad * 4) as nat, |k: int| index_at(k) as u16));
            }
            i = i + 1;
            assert(quad == i * columns) by (nonlinear_arith)
                requires
                    quad == (i - 1) * columns + columns,
            ;
        }
        assert(quad * 4 == grid_len(rows as int, columns as int)) by (nonlinear_arith)
            requires
                quad == rows * columns,
        ;
        self.vertices = vertices;
        self.indices = indices;
        Ok(())
    }
}

/// The quad in row `row` and column `col` of a grid owns the four indices
/// from its base on, and they run second corner, third, first, fourth.
pub proof fn lemma_quad_indices(rows: int, columns: int, row: int, col: int)
    requires
        0 <= row < rows,
        0 <= col < columns,
        grid_len(rows, columns) <= MAX_GRID_INDICES,
    ensures
        0 <= quad_base(row, col, columns),
        quad_base(row, col, columns) + 4 <= grid_len(rows, columns),
        grid_indices(rows, columns)[quad_base(row, col, columns)] == quad_base(row, col, columns) + 1,
        grid_indices(rows, columns)[quad_base(row, col, columns) + 1] == quad_base(row, col, columns)
            + 2,
        grid_indices(rows, columns)[quad_base(row, col, columns) + 2] == quad_base(row, col, columns),
        grid_indices(rows, columns)[quad_base(row, col, columns) + 3] == quad_base(row, col, columns)
            + 3,
        forall|c: int|
            0 <= c < 4 ==> {
                &&& (#[trigger] grid_vertices(rows, columns)[quad_base(row, col, columns)
                    + c]).cell_row == row
                &&& grid_vertices(rows, columns)[quad_base(row, col, columns) + c].cell_column == col
            },
{
    let q = row * columns + col;
    assert(0 <= q && q + 1 <= rows * columns) by (nonlinear_arith)
        requires
            q == row * columns + col,
            0 <= row < rows,
            0 <= col < columns,
    ;
    assert(rows * columns * 4 == (rows * columns) * 4) by (nonlinear_arith);
    vstd::arithmetic::div_mod::lemma_fundamental_div_mod_converse(q, columns, row, col);
    assert forall|c: int| 0 <= c < 4 implies {
        &&& (#[trigger] grid_vertices(rows, columns)[quad_base(row, col, columns) + c]).cell_row
            == row
        &&& grid_vertices(rows, columns)[quad_base(row, col, columns) + c].cell_column == col
    } by {
        assert((q * 4 + c) / 4 == q);
    }
}

/// Whether the background reports what it does: like the rest of the
/// renderer, but where the flags say `once`, only until its first draw.
pub fn is_debugging_enabled(flags: &DebugFlags) -> (out: bool)
    ensures
        out == flags.background_enabled(),
{
    if !flags.once {
        flags.debug || flags.opengl_debug
    } else if !flags.drawn {
        flags.debug || flags.opengl_debug
    } else {
        false
    }
}

} // verus!
