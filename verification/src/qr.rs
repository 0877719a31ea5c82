//! The QR-code component: a module matrix plus its container and dot styles,
//! rendered into a declarative grid of cells.

use vstd::prelude::*;

use crate::grid::Cell;
use crate::grid::Grid;
use crate::grid::spec_cell;
use crate::grid::spec_cells;
use crate::style::StyleRefinement;
use crate::style::lemma_refine_empty;
use crate::style::spec_refine;

verus! {

/// The color of one module as the external encoder reports it. Exactly the
/// `Dark` sentinel renders as a filled cell; everything else stays empty.
#[derive(Clone, Copy, Debug, PartialEq, Eq)]
pub enum ModuleColor {
    Light,
    Dark,
}

/// True exactly of the sentinel color that renders as a filled cell.
pub open spec fn spec_is_dark(c: ModuleColor) -> bool {
    c is Dark
}

/// The boolean projection of a color sequence: true exactly where dark.
pub open spec fn spec_darks(colors: Seq<ModuleColor>) -> Seq<bool> {
    colors.map_values(|c: ModuleColor| spec_is_dark(c))
}

/// The built-in default for the grid container: a white background, every
/// other attribute deferred to the host toolkit.
pub open spec fn default_container_style() -> StyleRefinement {
    StyleRefinement {
        background: Some(0xFFFF_FFFFu32),
        padding: None,
        corner_radius: None,
        min_width: None,
        min_height: None,
    }
}

/// The built-in default for a dark module's dot: a black background and a
/// quarter-rem minimum width and height.
pub open spec fn default_dot_style() -> StyleRefinement {
    StyleRefinement {
        background: Some(0x0000_00FFu32),
        padding: None,
        corner_radius: None,
        min_width: Some(250u32),
        min_height: Some(250u32),
    }
}

/// A QR code component: `cols` modules per row and one "is dark" flag per
/// module, row-major, expected (but not enforced) to hold `cols * cols`
/// flags. The container style applies to the whole grid, the dot style to
/// each dark module's cell.
#[derive(Clone, Debug, PartialEq, Eq)]
pub struct QrCodeComponent {
    pub cols: u16,
    pub data: Vec<bool>,
    pub style: StyleRefinement,
    pub dot_style: StyleRefinement,
}

impl QrCodeComponent {
    /// Create a new QR code component of `cols` dots per row, carrying the
    /// built-in container and dot styles.
    pub fn new(cols: u16, data: Vec<bool>) -> (q: QrCodeComponent)
        ensures
            q.cols == cols,
            q.data@ == data@,
            q.style == default_container_style(),
            q.dot_style == default_dot_style(),
    {
        QrCodeComponent {
            cols,
            data,
            style: StyleRefinement {
                background: Some(0xFFFF_FFFFu32),
                padding: None,
                corner_radius: None,
                min_width: None,
                min_height: None,
            },
            dot_style: StyleRefinement {
                background: Some(0x0000_00FFu32),
                padding: None,
                corner_radius: None,
                min_width: Some(250u32),
                min_height: Some(250u32),
            },
        }
    }

    /// Create a component straight from the encoder's per-module colors,
    /// sparing the caller the boolean conversion pass: the data holds true
    /// exactly where a color is the `Dark` sentinel.
    pub fn new_from_colors(cols: u16, colors: Vec<ModuleColor>) -> (q: QrCodeComponent)
        ensures
            q.cols == cols,
            q.data@ == spec_darks(colors@),
            q.style == default_container_style(),
            q.dot_style == default_dot_style(),
    {
        let mut data: Vec<bool> = Vec::new();
        let mut i: usize = 0;
        while i < colors.len()
            invariant
                i <= colors@.len(),
                data@ == spec_darks(colors@.take(i as int)),
            decreases colors@.len() - i,
        {
            let is_dark = matches!(colors[i], ModuleColor::Dark);
            data.push(is_dark);
            proof {
                assert(data@ =~= spec_darks(colors@.take(i as int + 1)));
            }
            i += 1;
        }
        proof {
            assert(colors@.take(colors@.len() as int) =~= colors@);
        }
        QrCodeComponent::new(cols, data)
    }

    /// Refine the container style: fields set in `new_styles` override the
    /// current container style, unset fields leave it untouched.
    pub fn refine_style(self, new_styles: &StyleRefinement) -> (q: QrCodeComponent)
        ensures
            q.style == spec_refine(self.style, *new_styles),
            q.cols == self.cols,
            q.data@ == self.data@,
            q.dot_style == self.dot_style,
    {
        let mut q = self;
        q.style.refine(new_styles);
        q
    }

    /// Refine the style of the dots: fields set in `new_styles` override the
    /// current dot style, unset fields leave it untouched.
    pub fn refine_dot_style(self, new_styles: &StyleRefinement) -> (q: QrCodeComponent)
        ensures
            q.dot_style == spec_refine(self.dot_style, *new_styles),
            q.cols == self.cols,
            q.data@ == self.data@,
            q.style == self.style,
    {
        let mut q = self;
        q.dot_style.refine(new_styles);
        q
    }

    /// Render the component into its declarative grid: one cell per module,
    /// filled and dot-styled exactly where the module is dark, under a
    /// container of `cols` cells per row carrying the component's style.
    pub fn render(self) -> (g: Grid)
        ensures
            g.cols == self.cols,
            g.style == self.style,
            g.cells@ == spec_cells(self.data@, self.dot_style),
    {
        let mut container_style = StyleRefinement::empty();
        container_style.refine(&self.style);
        proof {
            lemma_refine_empty(self.style);
        }
        let mut cells: Vec<Cell> = Vec::new();
        let mut i: usize = 0;
        while i < self.data.len()
            invariant
                i <= self.data@.len(),
                cells@ == spec_cells(self.data@.take(i as int), self.dot_style),
            decreases self.data@.len() - i,
        {
            let is_dark = self.data[i];
            let mut cell_style = StyleRefinement::empty();
            if is_dark {
                cell_style.refine(&self.dot_style);
            }
            proof {
                lemma_refine_empty(self.dot_style);
            }
            cells.push(Cell { filled: is_dark, style: cell_style });
            proof {
                assert(cells@ =~= spec_cells(self.data@.take(i as int + 1), self.dot_style));
            }
            i += 1;
        }
        proof {
            assert(self.data@.take(self.data@.len() as int) =~= self.data@);
        }
        Grid { cols: self.cols, style: container_style, cells }
    }
}

/// The cells a color sequence renders to directly: one cell per color,
/// filled and dot-styled exactly at the `Dark` sentinel.
pub open spec fn spec_cells_of_colors(colors: Seq<ModuleColor>, dot_style: StyleRefinement) -> Seq<
    Cell,
> {
    colors.map_values(|c: ModuleColor| spec_cell(spec_is_dark(c), dot_style))
}

/// Law: the color-driven variant and the boolean variant agree. Rendering a
/// color sequence directly yields exactly the cells of first projecting it
/// to booleans (true where dark) and rendering those.
pub proof fn lemma_color_variant_equivalent(colors: Seq<ModuleColor>, dot_style: StyleRefinement)
    ensures
        spec_cells_of_colors(colors, dot_style) == spec_cells(spec_darks(colors), dot_style),
{
    assert(spec_cells_of_colors(colors, dot_style) =~= spec_cells(spec_darks(colors), dot_style));
}

} // verus!
