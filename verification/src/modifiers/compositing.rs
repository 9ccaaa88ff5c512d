//! Blending rasterised glyph cells into the caption box.
//!
//! A rasteriser emits coverage cells: a position relative to the caption box, a size and
//! a colour whose alpha is the coverage. Only cells of one pixel with some coverage that
//! fall inside the box are drawn; every other cell is dropped without effect.

use crate::bitmap::{lemma_put_at, Bitmap, Grid, Rgba};
use crate::modifiers::layout::LayoutBox;
use vstd::prelude::*;

verus! {

/// A coverage cell of a rasterised glyph. `x` and `y` are relative to the caption box.
#[derive(Clone, Copy, Debug, PartialEq, Eq, Structural)]
pub struct GlyphCell {
    pub x: i32,
    pub y: i32,
    pub width: u32,
    pub height: u32,
    pub color: Rgba,
}

/// One channel of a foreground laid over a background with coverage `alpha`:
/// `(fg * alpha + bg * (255 - alpha)) / 255`, rounded down.
pub open spec fn blend_channel_of(fg: u8, bg: u8, alpha: u8) -> int {
    (fg * alpha + bg * (255 - alpha)) / 255
}

/// A foreground pixel laid over a background pixel: each colour channel is blended with
/// the foreground's alpha, and the result is as opaque as the more opaque of the two.
pub open spec fn blend_of(fg: Rgba, bg: Rgba) -> Rgba {
    Rgba {
        r: blend_channel_of(fg.r, bg.r, fg.a) as u8,
        g: blend_channel_of(fg.g, bg.g, fg.a) as u8,
        b: blend_channel_of(fg.b, bg.b, fg.a) as u8,
        a: if fg.a >= bg.a {
            fg.a
        } else {
            bg.a
        },
    }
}

/// A blended channel is a channel value: the two weighted parts and their sum are at
/// most `255 * 255`, so the sum divided by 255 is at most 255.
pub proof fn lemma_blend_channel_range(fg: u8, bg: u8, alpha: u8)
    ensures
        0 <= fg * alpha <= 255 * 255,
        0 <= bg * (255 - alpha) <= 255 * 255,
        0 <= fg * alpha + bg * (255 - alpha) <= 255 * 255,
        0 <= blend_channel_of(fg, bg, alpha) <= 255,
{
    let front = fg * alpha;
    let back = bg * (255 - alpha);
    assert(0 <= front <= 255 * alpha) by (nonlinear_arith)
        requires
            front == fg * alpha,
            0 <= fg <= 255,
            0 <= alpha <= 255,
    ;
    assert(0 <= back <= 255 * (255 - alpha)) by (nonlinear_arith)
        requires
            back == bg * (255 - alpha),
            0 <= bg <= 255,
            0 <= alpha <= 255,
    ;
}

/// Full coverage replaces the background's colour by the foreground's, exactly.
pub proof fn lemma_opaque_blend(fg: Rgba, bg: Rgba)
    requires
        fg.a == 255,
    ensures
        blend_of(fg, bg).r == fg.r,
        blend_of(fg, bg).g == fg.g,
        blend_of(fg, bg).b == fg.b,
        blend_of(fg, bg).a == 255,
{
    assert(fg.r * 255 / 255 == fg.r);
    assert(fg.g * 255 / 255 == fg.g);
    assert(fg.b * 255 / 255 == fg.b);
}

/// No coverage would leave the background's colour as it is.
pub proof fn lemma_transparent_blend(fg: Rgba, bg: Rgba)
    requires
        fg.a == 0,
    ensures
        blend_of(fg, bg) == bg,
{
    assert(bg.r * 255 / 255 == bg.r);
    assert(bg.g * 255 / 255 == bg.g);
    assert(bg.b * 255 / 255 == bg.b);
}

/// Blends one channel.
pub fn blend_channel(fg: u8, bg: u8, alpha: u8) -> (blended: u8)
    ensures
        blended == blend_channel_of(fg, bg, alpha),
{
    proof {
        lemma_blend_channel_range(fg, bg, alpha);
    }
    let total: u32 = fg as u32 * alpha as u32 + bg as u32 * (255 - alpha as u32);
    (total / 255) as u8
}

/// Lays the pixel `fg` over the pixel `bg`.
pub fn blend(fg: Rgba, bg: Rgba) -> (blended: Rgba)
    ensures
        blended == blend_of(fg, bg),
{
    Rgba {
        r: blend_channel(fg.r, bg.r, fg.a),
        g: blend_channel(fg.g, bg.g, fg.a),
        b: blend_channel(fg.b, bg.b, fg.a),
        a: if fg.a >= bg.a {
            fg.a
        } else {
            bg.a
        },
    }
}

/// Whether a cell is drawn: it has some coverage, lies inside the box and is one pixel
/// wide and one pixel high.
pub open spec fn accepts(region: LayoutBox, cell: GlyphCell) -> bool {
    &&& cell.color.a != 0
    &&& 0 <= cell.x < region.width
    &&& 0 <= cell.y < region.height
    &&& cell.width == 1
    &&& cell.height == 1
}

/// The picture after one cell: an accepted cell is blended over the pixel it addresses,
/// any other cell changes nothing.
pub open spec fn composite_cell_of(grid: Grid, region: LayoutBox, cell: GlyphCell) -> Grid {
    if accepts(region, cell) {
        let x = region.x_offset + cell.x;
        let y = region.y_offset + cell.y;
        grid.put(x, y, blend_of(cell.color, grid.at(x, y)))
    } else {
        grid
    }
}

/// The picture after the cells of `cells`, each drawn in turn over the result of those
/// before it.
pub open spec fn composite_of(grid: Grid, region: LayoutBox, cells: Seq<GlyphCell>) -> Grid
    decreases cells.len(),
{
    if cells.len() == 0 {
        grid
    } else {
        composite_cell_of(composite_of(grid, region, cells.drop_last()), region, cells.last())
    }
}

/// A cell without coverage leaves the picture as it is.
pub proof fn lemma_transparent_cell_is_dropped(grid: Grid, region: LayoutBox, cell: GlyphCell)
    requires
        cell.color.a == 0,
    ensures
        composite_cell_of(grid, region, cell) == grid,
{
}

/// A cell that is not exactly one pixel wide and one pixel high leaves the picture as
/// it is.
pub proof fn lemma_wide_or_tall_cell_is_dropped(grid: Grid, region: LayoutBox, cell: GlyphCell)
    requires
        cell.width != 1 || cell.height != 1,
    ensures
        composite_cell_of(grid, region, cell) == grid,
{
}

/// An accepted cell with full coverage gives its own colour to the pixel it addresses.
pub proof fn lemma_opaque_cell_sets_color(grid: Grid, region: LayoutBox, cell: GlyphCell)
    requires
        grid.well_formed(),
        region.within(grid),
        accepts(region, cell),
        cell.color.a == 255,
    ensures
        ({
            let drawn = composite_cell_of(grid, region, cell).at(
                region.x_offset + cell.x,
                region.y_offset + cell.y,
            );
            drawn.r == cell.color.r && drawn.g == cell.color.g && drawn.b == cell.color.b
        }),
{
    let x = region.x_offset + cell.x;
    let y = region.y_offset + cell.y;
    lemma_opaque_blend(cell.color, grid.at(x, y));
    lemma_put_at(grid, x, y, blend_of(cell.color, grid.at(x, y)), x, y);
}

/// One cell keeps the picture's size and changes no pixel outside the caption box.
pub proof fn lemma_cell_stays_in_region(grid: Grid, region: LayoutBox, cell: GlyphCell)
    requires
        grid.well_formed(),
        region.within(grid),
    ensures
        composite_cell_of(grid, region, cell).well_formed(),
        composite_cell_of(grid, region, cell).width == grid.width,
        composite_cell_of(grid, region, cell).height == grid.height,
        forall|x: int, y: int|
            grid.contains(x, y) && !region.covers(x, y) ==> #[trigger] composite_cell_of(
                grid,
                region,
                cell,
            ).at(x, y) == grid.at(x, y),
{
    if accepts(region, cell) {
        let cx = region.x_offset + cell.x;
        let cy = region.y_offset + cell.y;
        let pixel = blend_of(cell.color, grid.at(cx, cy));
        lemma_put_at(grid, cx, cy, pixel, cx, cy);
        assert forall|x: int, y: int|
            grid.contains(x, y) && !region.covers(x, y) implies #[trigger] composite_cell_of(
            grid,
            region,
            cell,
        ).at(x, y) == grid.at(x, y) by {
            lemma_put_at(grid, cx, cy, pixel, x, y);
        }
    }
}

/// Compositing keeps the picture's size and writes nowhere outside the caption box:
/// every pixel that the box does not cover is the same after as before.
pub proof fn lemma_composite_stays_in_region(grid: Grid, region: LayoutBox, cells: Seq<GlyphCell>)
    requires
        grid.well_formed(),
        region.within(grid),
    ensures
        composite_of(grid, region, cells).well_formed(),
        composite_of(grid, region, cells).width == grid.width,
        composite_of(grid, region, cells).height == grid.height,
        forall|x: int, y: int|
            grid.contains(x, y) && !region.covers(x, y) ==> #[trigger] composite_of(
                grid,
                region,
                cells,
            ).at(x, y) == grid.at(x, y),
    decreases cells.len(),
{
    if cells.len() > 0 {
        let before = composite_of(grid, region, cells.drop_last());
        lemma_composite_stays_in_region(grid, region, cells.drop_last());
        lemma_cell_stays_in_region(before, region, cells.last());
        assert forall|x: int, y: int|
            grid.contains(x, y) && !region.covers(x, y) implies #[trigger] composite_of(
            grid,
            region,
            cells,
        ).at(x, y) == grid.at(x, y) by {
            assert(before.contains(x, y));
            assert(composite_cell_of(before, region, cells.last()).at(x, y) == before.at(x, y));
        }
    }
}

/// Drawing one batch of cells and then another gives what drawing all of them in one
/// go gives. So a caption that is drawn twice is blended twice.
pub proof fn lemma_composite_in_batches(
    grid: Grid,
    region: LayoutBox,
    first: Seq<GlyphCell>,
    second: Seq<GlyphCell>,
)
    ensures
        composite_of(grid, region, first + second) == composite_of(
            composite_of(grid, region, first),
            region,
            second,
        ),
    decreases second.len(),
{
    if second.len() == 0 {
        assert(first + second =~= first);
    } else {
        lemma_composite_in_batches(grid, region, first, second.drop_last());
        assert((first + second).drop_last() =~= first + second.drop_last());
        assert((first + second).last() == second.last());
    }
}

/// Draws one cell into the caption box `region` of `image`.
pub fn composite_cell(image: &mut Bitmap, region: &LayoutBox, cell: &GlyphCell)
    requires
        region.within(old(image)@),
    ensures
        final(image)@ == composite_cell_of(old(image)@, *region, *cell),
{
    proof {
        use_type_invariant(&*image);
    }
    if cell.color.a == 0 || cell.x < 0 || cell.y < 0 || cell.width != 1 || cell.height != 1 {
        return ;
    }
    if cell.x as u32 >= region.width || cell.y as u32 >= region.height {
        return ;
    }
    let x: u32 = region.x_offset + cell.x as u32;
    let y: u32 = region.y_offset + cell.y as u32;
    let background = image.get_pixel(x, y);
    image.put_pixel(x, y, blend(cell.color, background));
}

/// Draws the cells of `cells`, in their order, into the caption box `region` of `image`.
pub fn composite_cells(image: &mut Bitmap, region: &LayoutBox, cells: &Vec<GlyphCell>)
    requires
        region.within(old(image)@),
    ensures
        final(image)@ == composite_of(old(image)@, *region, cells@),
        final(image)@.width == old(image)@.width,
        final(image)@.height == old(image)@.height,
        forall|x: int, y: int|
            old(image)@.contains(x, y) && !region.covers(x, y) ==> #[trigger] final(image)@.at(x, y)
                == old(image)@.at(x, y),
{
    let ghost before = image@;
    proof {
        use_type_invariant(&*image);
    }
    let mut i: usize = 0;
    while i < cells.len()
        invariant
            i <= cells@.len(),
            before.well_formed(),
            region.within(before),
            image@ == composite_of(before, *region, cells@.take(i as int)),
        decreases cells@.len() - i,
    {
        proof {
            lemma_composite_stays_in_region(before, *region, cells@.take(i as int));
            assert(cells@.take(i + 1).drop_last() =~= cells@.take(i as int));
        }
        composite_cell(image, region, &cells[i]);
        i = i + 1;
    }
    proof {
        assert(cells@.take(i as int) =~= cells@);
        lemma_composite_stays_in_region(before, *region, cells@);
    }
}

} // verus!
