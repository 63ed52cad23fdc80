//! The brush: an 11x11 footprint that holds a filled disc of the brush colour
//! and black corners.

use vstd::prelude::*;
use crate::coords::{BRUSH_CENTER, BRUSH_EXTENT};

verus! {

/// Largest squared distance from the centre cell that is still painted.
pub const BRUSH_RADIUS_SQUARED: u32 = 30;

/// Number of cells of the footprint that the disc covers.
pub const DISC_CELLS: u32 = 97;

/// One colour of the state: a component per ink channel, each fully on or
/// fully off. The channels are bound to the left, right and middle mouse
/// buttons, in this order.
#[derive(Clone, Copy, Debug, PartialEq, Eq, Structural)]
pub struct BrushColor {
    pub left: bool,
    pub right: bool,
    pub middle: bool,
}

/// The colour with every channel off.
pub open spec fn black() -> BrushColor {
    BrushColor { left: false, right: false, middle: false }
}

/// The intensity of a channel: 1 when it is on, 0 when it is off.
pub open spec fn intensity(on: bool) -> u8 {
    if on {
        1
    } else {
        0
    }
}

impl BrushColor {
    /// The colour with every channel off.
    pub fn black() -> (color: BrushColor)
        ensures
            color == black(),
    {
        BrushColor { left: false, right: false, middle: false }
    }

    /// The three intensities, in channel order.
    pub fn components(self) -> (rgb: (u8, u8, u8))
        ensures
            rgb.0 == intensity(self.left),
            rgb.1 == intensity(self.right),
            rgb.2 == intensity(self.middle),
    {
        (
            if self.left { 1 } else { 0 },
            if self.right { 1 } else { 0 },
            if self.middle { 1 } else { 0 },
        )
    }
}

/// The cell at offset (`dx`, `dy`) from the footprint's first cell lies in
/// the disc around the centre cell.
pub open spec fn in_disc(dx: int, dy: int) -> bool {
    (dx - BRUSH_CENTER as int) * (dx - BRUSH_CENTER as int) + (dy - BRUSH_CENTER as int) * (dy
        - BRUSH_CENTER as int) <= BRUSH_RADIUS_SQUARED as int
}

/// What a stamp of `color` writes at offset (`dx`, `dy`): the colour inside
/// the disc, black outside of it.
pub open spec fn stamp_cell(color: BrushColor, dx: int, dy: int) -> BrushColor {
    if in_disc(dx, dy) {
        color
    } else {
        black()
    }
}

/// `cells` is the full stamp of `color`: 11 columns of 11 cells, each cell as
/// `stamp_cell` says.
pub open spec fn is_stamp_of(cells: Seq<Vec<BrushColor>>, color: BrushColor) -> bool {
    &&& cells.len() == BRUSH_EXTENT
    &&& forall|dx: int| 0 <= dx < BRUSH_EXTENT ==> (#[trigger] cells[dx]).len() == BRUSH_EXTENT
    &&& forall|dx: int, dy: int|
        0 <= dx < BRUSH_EXTENT && 0 <= dy < BRUSH_EXTENT ==> #[trigger] cells[dx][dy] == stamp_cell(
            color,
            dx,
            dy,
        )
}

/// Number of disc cells among the first `height` cells of column `dx`.
pub open spec fn disc_cells_in_column(dx: int, height: nat) -> nat
    decreases height,
{
    if height == 0 {
        0
    } else {
        disc_cells_in_column(dx, (height - 1) as nat) + if in_disc(dx, height - 1) {
            1nat
        } else {
            0nat
        }
    }
}

/// Number of disc cells in the first `width` columns of the footprint.
pub open spec fn disc_cells(width: nat) -> nat
    decreases width,
{
    if width == 0 {
        0
    } else {
        disc_cells((width - 1) as nat) + disc_cells_in_column(width - 1, BRUSH_EXTENT as nat)
    }
}

/// Tells whether the cell at offset (`dx`, `dy`) lies in the disc. Offsets
/// beyond the footprint are outside of it.
pub fn covers(dx: u32, dy: u32) -> (inside: bool)
    ensures
        inside == in_disc(dx as int, dy as int),
{
    if dx >= BRUSH_EXTENT || dy >= BRUSH_EXTENT {
        assert(!in_disc(dx as int, dy as int)) by (nonlinear_arith)
            requires
                dx >= 11 || dy >= 11,
        ;
        false
    } else {
        let ex: u32 = if dx >= BRUSH_CENTER { dx - BRUSH_CENTER } else { BRUSH_CENTER - dx };
        let ey: u32 = if dy >= BRUSH_CENTER { dy - BRUSH_CENTER } else { BRUSH_CENTER - dy };
        assert(ex * ex == (dx - 5) * (dx - 5)) by (nonlinear_arith)
            requires
                ex == dx - 5 || ex == 5 - dx,
        ;
        assert(ey * ey == (dy - 5) * (dy - 5)) by (nonlinear_arith)
            requires
                ey == dy - 5 || ey == 5 - dy,
        ;
        assert(ex * ex <= 36 && ey * ey <= 36) by (nonlinear_arith)
            requires
                ex <= 6,
                ey <= 6,
        ;
        ex * ex + ey * ey <= BRUSH_RADIUS_SQUARED
    }
}

/// The colour that a stamp of `color` writes at offset (`dx`, `dy`).
pub fn cell_color(color: BrushColor, dx: u32, dy: u32) -> (cell: BrushColor)
    ensures
        cell == stamp_cell(color, dx as int, dy as int),
{
    if covers(dx, dy) {
        color
    } else {
        BrushColor::black()
    }
}

/// Builds the stamp of `color`, indexed by column and then by cell: cells
/// outside the disc are black, so a stamp replaces all that its footprint
/// held.
pub fn build_stamp(color: BrushColor) -> (cells: Vec<Vec<BrushColor>>)
    ensures
        is_stamp_of(cells@, color),
{
    let mut cells: Vec<Vec<BrushColor>> = Vec::new();
    let mut dx: u32 = 0;
    while dx < BRUSH_EXTENT
        invariant
            dx <= BRUSH_EXTENT,
            cells@.len() == dx,
            forall|i: int| 0 <= i < dx ==> (#[trigger] cells@[i]).len() == BRUSH_EXTENT,
            forall|i: int, j: int|
                0 <= i < dx && 0 <= j < BRUSH_EXTENT ==> #[trigger] cells@[i][j] == stamp_cell(
                    color,
                    i,
                    j,
                ),
        decreases BRUSH_EXTENT - dx,
    {
        let mut column: Vec<BrushColor> = Vec::new();
        let mut dy: u32 = 0;
        while dy < BRUSH_EXTENT
            invariant
                dy <= BRUSH_EXTENT,
                dx < BRUSH_EXTENT,
                column@.len() == dy,
                forall|j: int| 0 <= j < dy ==> #[trigger] column@[j] == stamp_cell(color, dx as int, j),
            decreases BRUSH_EXTENT - dy,
        {
            column.push(cell_color(color, dx, dy));
            dy = dy + 1;
        }
        cells.push(column);
        dx = dx + 1;
    }
    cells
}

/// The disc is the same seen along either axis and from either end, so that
/// a stamp reads the same by columns and by rows.
pub proof fn lemma_disc_is_symmetric(dx: int, dy: int)
    ensures
        in_disc(dx, dy) == in_disc(dy, dx),
        in_disc(dx, dy) == in_disc(2 * BRUSH_CENTER - dx, dy),
        in_disc(dx, dy) == in_disc(dx, 2 * BRUSH_CENTER - dy),
{
    assert((dx - 5) * (dx - 5) == (10 - dx - 5) * (10 - dx - 5)) by (nonlinear_arith);
    assert((dy - 5) * (dy - 5) == (10 - dy - 5) * (10 - dy - 5)) by (nonlinear_arith);
}

/// In a stamp of a colour with a channel on, a cell holds the colour exactly
/// when it lies in the disc, and every other cell is black.
pub proof fn lemma_stamp_mask(cells: Seq<Vec<BrushColor>>, color: BrushColor, dx: int, dy: int)
    requires
        is_stamp_of(cells, color),
        color != black(),
        0 <= dx < BRUSH_EXTENT,
        0 <= dy < BRUSH_EXTENT,
    ensures
        cells[dx][dy] == color <==> in_disc(dx, dy),
        cells[dx][dy] == black() <==> !in_disc(dx, dy),
{
}

/// The disc covers the same 97 of the footprint's 121 cells in every stamp.
pub proof fn lemma_disc_cell_count()
    ensures
        disc_cells(BRUSH_EXTENT as nat) == DISC_CELLS,
{
    reveal_with_fuel(disc_cells_in_column, 12);
    assert(disc_cells_in_column(0, 11) == 5);
    assert(disc_cells_in_column(1, 11) == 7);
    assert(disc_cells_in_column(2, 11) == 9);
    assert(disc_cells_in_column(3, 11) == 11);
    assert(disc_cells_in_column(4, 11) == 11);
    assert(disc_cells_in_column(5, 11) == 11);
    assert(disc_cells_in_column(6, 11) == 11);
    assert(disc_cells_in_column(7, 11) == 11);
    assert(disc_cells_in_column(8, 11) == 9);
    assert(disc_cells_in_column(9, 11) == 7);
    assert(disc_cells_in_column(10, 11) == 5);
    reveal_with_fuel(disc_cells, 12);
}

/// Counts the cells of the footprint that lie in the disc.
pub fn count_disc_cells() -> (count: u32)
    ensures
        count == disc_cells(BRUSH_EXTENT as nat),
        count == DISC_CELLS,
{
    proof {
        lemma_disc_cell_count();
    }
    let mut count: u32 = 0;
    let mut dx: u32 = 0;
    while dx < BRUSH_EXTENT
        invariant
            dx <= BRUSH_EXTENT,
            count == disc_cells(dx as nat),
            count <= dx * BRUSH_EXTENT,
        decreases BRUSH_EXTENT - dx,
    {
        let mut in_column: u32 = 0;
        let mut dy: u32 = 0;
        while dy < BRUSH_EXTENT
            invariant
                dy <= BRUSH_EXTENT,
                in_column == disc_cells_in_column(dx as int, dy as nat),
                in_column <= dy,
            decreases BRUSH_EXTENT - dy,
        {
            if covers(dx, dy) {
                in_column = in_column + 1;
            }
            dy = dy + 1;
        }
        count = count + in_column;
        dx = dx + 1;
    }
    count
}

} // verus!
