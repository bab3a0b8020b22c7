//! Display rasterizer geometry: turns the virtual machine's monochrome pixel
//! grid into the list of scaled, axis-aligned filled rectangles that one
//! frame draws over a cleared background.
//!
//! The grid is a flat row-major sequence of booleans of a given width. Each
//! set cell at flat index `i` becomes one square of side `scale` whose
//! top-left corner sits at `((i % width) * scale, (i / width) * scale)`.
//! An all-false grid yields no rectangles at all: the frame is just the
//! cleared background. Presenting the cleared surface and the rectangles is
//! the drawing surface's business, outside this crate.

use vstd::prelude::*;

verus! {

/// Side length, in surface pixels, of the square drawn for one grid cell.
pub const SCALE: u32 = 15;

/// An axis-aligned filled rectangle on the drawing surface, in surface
/// pixel coordinates.
#[derive(Clone, Copy, Debug, PartialEq, Eq, Structural)]
pub struct PixelRect {
    pub x: u32,
    pub y: u32,
    pub w: u32,
    pub h: u32,
}

/// The rectangle that a set cell at flat index `i` of a grid of the given
/// width produces under the given per-cell scale.
pub open spec fn spec_cell_rect(i: int, width: int, scale: int) -> PixelRect {
    PixelRect {
        x: ((i % width) * scale) as u32,
        y: ((i / width) * scale) as u32,
        w: scale as u32,
        h: scale as u32,
    }
}

/// The rectangles of one frame: one per set cell, in flat index order.
pub open spec fn spec_frame_rects(screen: Seq<bool>, width: int, scale: int) -> Seq<PixelRect>
    decreases screen.len(),
{
    if screen.len() == 0 {
        Seq::empty()
    } else {
        let prefix = spec_frame_rects(screen.drop_last(), width, scale);
        if screen.last() {
            prefix.push(spec_cell_rect(screen.len() - 1, width, scale))
        } else {
            prefix
        }
    }
}

/// Number of set cells in the grid.
pub open spec fn spec_lit_count(screen: Seq<bool>) -> int
    decreases screen.len(),
{
    if screen.len() == 0 {
        0
    } else {
        spec_lit_count(screen.drop_last()) + if screen.last() {
            1int
        } else {
            0int
        }
    }
}

/// One frame produces exactly one rectangle per set cell.
pub proof fn lemma_frame_rects_len(screen: Seq<bool>, width: int, scale: int)
    ensures
        spec_frame_rects(screen, width, scale).len() == spec_lit_count(screen),
    decreases screen.len(),
{
    if screen.len() > 0 {
        lemma_frame_rects_len(screen.drop_last(), width, scale);
    }
}

/// An all-false grid renders as a cleared frame with zero rectangles.
pub proof fn lemma_all_dark_no_rects(screen: Seq<bool>, width: int, scale: int)
    requires
        forall|i: int| 0 <= i < screen.len() ==> !screen[i],
    ensures
        spec_frame_rects(screen, width, scale) == Seq::<PixelRect>::empty(),
    decreases screen.len(),
{
    if screen.len() > 0 {
        lemma_all_dark_no_rects(screen.drop_last(), width, scale);
    }
}

/// A grid with exactly one set cell, at flat index `j`, renders as exactly
/// one rectangle, at the scaled coordinates of that cell.
pub proof fn lemma_one_lit_one_rect(screen: Seq<bool>, j: int, width: int, scale: int)
    requires
        0 <= j < screen.len(),
        screen[j],
        forall|i: int| 0 <= i < screen.len() && i != j ==> !screen[i],
    ensures
        spec_frame_rects(screen, width, scale) =~= seq![spec_cell_rect(j, width, scale)],
    decreases screen.len(),
{
    if screen.len() - 1 == j {
        lemma_all_dark_no_rects(screen.drop_last(), width, scale);
    } else {
        lemma_one_lit_one_rect(screen.drop_last(), j, width, scale);
    }
}

/// Whether the pixel at cell `i` of an RGBA byte buffer (four bytes per
/// pixel) is lit: a lit pixel stores the maximal value in its first
/// channel.
pub open spec fn spec_lit(rgba: Seq<u8>, i: int) -> bool {
    rgba[4 * i] == 255
}

/// Reduces an RGBA byte buffer, four bytes per pixel, to the monochrome
/// grid the rasterizer consumes: one boolean per pixel, set exactly when
/// the pixel is lit.
pub fn lit_grid(rgba: &Vec<u8>) -> (grid: Vec<bool>)
    ensures
        grid@.len() == rgba@.len() / 4,
        forall|i: int| 0 <= i < grid@.len() ==> grid@[i] == spec_lit(rgba@, i),
{
    let n = rgba.len() / 4;
    proof {
        vstd::arithmetic::div_mod::lemma_fundamental_div_mod(rgba@.len() as int, 4);
    }
    let mut grid: Vec<bool> = Vec::new();
    let mut i: usize = 0;
    while i < n
        invariant
            i <= n,
            n == rgba@.len() / 4,
            4 * n <= rgba@.len(),
            rgba@.len() <= usize::MAX,
            grid@.len() == i,
            forall|j: int| 0 <= j < i ==> grid@[j] == spec_lit(rgba@, j),
        decreases n - i,
    {
        grid.push(rgba[4 * i] == 255);
        i = i + 1;
    }
    grid
}

/// Computes the rectangles of one frame from the pixel grid: one square of
/// side `scale` per set cell, in flat index order, at the cell's scaled
/// coordinates.
pub fn frame_rects(screen: &Vec<bool>, width: usize, scale: u32) -> (r: Vec<PixelRect>)
    requires
        width > 0,
        scale >= 1,
        screen@.len() * scale <= u32::MAX,
    ensures
        r@ == spec_frame_rects(screen@, width as int, scale as int),
{
    let mut r: Vec<PixelRect> = Vec::new();
    let mut i: usize = 0;
    while i < screen.len()
        invariant
            width > 0,
            scale >= 1,
            screen@.len() * scale <= u32::MAX,
            i <= screen@.len(),
            r@ == spec_frame_rects(screen@.take(i as int), width as int, scale as int),
        decreases screen@.len() - i,
    {
        if screen[i] {
            proof {
                assert(i % width <= i && i / width <= i) by {
                    vstd::arithmetic::div_mod::lemma_mod_decreases(i as nat, width as nat);
                    vstd::arithmetic::div_mod::lemma_div_basics_5(i as int, width as int);
                }
                assert((i % width) * scale <= u32::MAX && (i / width) * scale <= u32::MAX
                    && i % width <= u32::MAX && i / width <= u32::MAX) by (nonlinear_arith)
                    requires
                        i % width <= i,
                        i / width <= i,
                        (i as int) < screen@.len(),
                        screen@.len() * scale <= u32::MAX,
                        scale >= 1,
                ;
            }
            let x: u32 = ((i % width) as u32);
            let y: u32 = ((i / width) as u32);
            let rect = PixelRect { x: x * scale, y: y * scale, w: scale, h: scale };
            r.push(rect);
        }
        proof {
            assert(screen@.take(i + 1).drop_last() =~= screen@.take(i as int));
            assert(screen@.take(i + 1).last() == screen@[i as int]);
        }
        i = i + 1;
    }
    proof {
        assert(screen@.take(screen@.len() as int) =~= screen@);
    }
    r
}

/// The monochrome grid read off an RGBA byte buffer.
pub open spec fn spec_lit_seq(rgba: Seq<u8>) -> Seq<bool> {
    Seq::new((rgba.len() / 4) as nat, |i: int| spec_lit(rgba, i))
}

/// One whole frame from the virtual machine's RGBA frame buffer to the
/// rectangles to draw: reduces the buffer to the monochrome grid and
/// rasterizes it, one scaled square per lit pixel, in flat index order.
pub fn draw_screen(rgba: &Vec<u8>, width: usize, scale: u32) -> (r: Vec<PixelRect>)
    requires
        width > 0,
        scale >= 1,
        (rgba@.len() / 4) * scale <= u32::MAX,
    ensures
        r@ == spec_frame_rects(spec_lit_seq(rgba@), width as int, scale as int),
{
    let grid = lit_grid(rgba);
    proof {
        assert(grid@ =~= spec_lit_seq(rgba@));
    }
    frame_rects(&grid, width, scale)
}

} // verus!
