//! The rendered output: a flat sequence of styled cells arranged into
//! fixed-width rows by a grid container.

use vstd::prelude::*;

use crate::style::StyleRefinement;
use crate::style::empty_style;

verus! {

/// One rendered grid slot. A dark module becomes a filled cell carrying the
/// dot style; a light module becomes an empty placeholder of the same slot,
/// so that the grid stays aligned.
#[derive(Clone, Copy, Debug, PartialEq, Eq)]
pub struct Cell {
    pub filled: bool,
    pub style: StyleRefinement,
}

/// The grid container: `cols` cells per row, row-major, with a container
/// style of its own. The last row may be short when the number of cells is
/// not a multiple of `cols`.
#[derive(Clone, Debug, PartialEq, Eq)]
pub struct Grid {
    pub cols: u16,
    pub style: StyleRefinement,
    pub cells: Vec<Cell>,
}

/// The cell a single module becomes: filled and dot-styled when the module
/// is dark, an unstyled placeholder when it is light.
pub open spec fn spec_cell(is_dark: bool, dot_style: StyleRefinement) -> Cell {
    Cell {
        filled: is_dark,
        style: if is_dark {
            dot_style
        } else {
            empty_style()
        },
    }
}

/// The cells a whole module sequence becomes, in order.
pub open spec fn spec_cells(data: Seq<bool>, dot_style: StyleRefinement) -> Seq<Cell> {
    data.map_values(|is_dark: bool| spec_cell(is_dark, dot_style))
}

impl Grid {
    /// How many rows the host lays the cells out into: `ceil(cells / cols)`.
    pub open spec fn row_count(self) -> int {
        if self.cols == 0 {
            0
        } else {
            (self.cells@.len() + self.cols - 1) / (self.cols as int)
        }
    }

    /// The row that the cell at flat index `i` lands in.
    pub open spec fn cell_row(self, i: int) -> int {
        i / (self.cols as int)
    }

    /// The column that the cell at flat index `i` lands in.
    pub open spec fn cell_col(self, i: int) -> int {
        i % (self.cols as int)
    }
}

/// Law: a square matrix fills the grid exactly. With `cols > 0` and
/// `cols * cols` cells, the grid has `cols` rows of `cols` cells each:
/// every flat index lands in a row and a column below `cols`, and each
/// (row, column) pair below `cols` is hit by exactly the one flat index
/// `row * cols + column`.
pub proof fn lemma_square_grid_shape(g: Grid)
    requires
        g.cols > 0,
        g.cells@.len() == g.cols * g.cols,
    ensures
        g.row_count() == g.cols as int,
        forall|i: int|
            0 <= i < g.cells@.len() ==> 0 <= #[trigger] g.cell_row(i) < g.cols && 0 <= #[trigger] g.cell_col(
                i,
            ) < g.cols,
        forall|i: int|
            0 <= i < g.cells@.len() ==> i == #[trigger] g.cell_row(i) * g.cols + g.cell_col(i),
{
    let c = g.cols as int;
    assert((c * c + c - 1) / c == c) by (nonlinear_arith)
        requires
            c > 0,
    ;
    assert forall|i: int| 0 <= i < g.cells@.len() implies 0 <= #[trigger] g.cell_row(i) < g.cols
        && 0 <= #[trigger] g.cell_col(i) < g.cols by {
        assert(0 <= i / c < c && 0 <= i % c < c) by (nonlinear_arith)
            requires
                c > 0,
                0 <= i < c * c,
        ;
    }
    assert forall|i: int| 0 <= i < g.cells@.len() implies i == #[trigger] g.cell_row(i) * g.cols
        + g.cell_col(i) by {
        assert(i == (i / c) * c + i % c) by (nonlinear_arith)
            requires
                c > 0,
        ;
    }
}

/// Law: a cell is filled if and only if the module it renders is dark.
pub proof fn lemma_filled_iff_dark(data: Seq<bool>, dot_style: StyleRefinement)
    ensures
        spec_cells(data, dot_style).len() == data.len(),
        forall|i: int|
            0 <= i < data.len() ==> (#[trigger] spec_cells(data, dot_style)[i]).filled == data[i],
{
}

} // verus!
