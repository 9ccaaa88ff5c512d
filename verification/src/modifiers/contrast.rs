//! Choosing a text colour that stands out against the picture behind the caption.
//!
//! The background is measured by a running average of the luma of the pixels in the
//! caption box, visited row by row: starting from `0`, each pixel replaces the average
//! `a` by `(a + l / 255) / 2`, where `l` is the pixel's luma. After `n` pixels the
//! average is the fraction `average_numerator / (255 * 2^n)`, which is how it is
//! modelled here: exactly, in integers. The text is black where the average exceeds one
//! half, and white otherwise.

use crate::bitmap::{Bitmap, Grid, Rgba};
use crate::modifiers::layout::LayoutBox;
use vstd::arithmetic::power2::{lemma_pow2_pos, lemma_pow2_unfold, pow2};
use vstd::prelude::*;

verus! {

/// A colour without transparency.
#[derive(Clone, Copy, Debug, PartialEq, Eq, Structural)]
pub struct Rgb {
    pub r: u8,
    pub g: u8,
    pub b: u8,
}

/// Black text, for bright backgrounds.
pub open spec fn black() -> Rgb {
    Rgb { r: 0, g: 0, b: 0 }
}

/// White text, for dark backgrounds.
pub open spec fn white() -> Rgb {
    Rgb { r: 255, g: 255, b: 255 }
}

/// The luma of a pixel, from `0` (dark) to `255` (bright): the weighted sum of its red,
/// green and blue channels with the weights 0.2126, 0.7152 and 0.0722, rounded down.
pub open spec fn luma_of(pixel: Rgba) -> int {
    (2126 * pixel.r + 7152 * pixel.g + 722 * pixel.b) / 10000
}

/// The luma of `pixel`, computed by `image::Pixel::to_luma` on the `image::Rgba` pixel
/// with the same four channels. Not proved here: that the first channel of what
/// `to_luma` returns is `luma_of(pixel)`, as the integer arithmetic in that crate's
/// colour conversion for 8-bit channels shows.
#[verifier::external_body]
fn pixel_to_luma(pixel: Rgba) -> (luma: u8)
    ensures
        luma == luma_of(pixel),
{
    image::Pixel::to_luma(&image::Rgba([pixel.r, pixel.g, pixel.b, pixel.a])).0[0]
}

/// The luma of `pixel`.
pub fn luma(pixel: Rgba) -> (value: u8)
    ensures
        value == luma_of(pixel),
{
    pixel_to_luma(pixel)
}

/// The lumas of the pixels of `region`, row by row from its top-left corner.
pub open spec fn region_lumas(grid: Grid, region: LayoutBox) -> Seq<int> {
    Seq::new(
        region.area(),
        |i: int|
            luma_of(
                grid.at(
                    region.x_offset + i % (region.width as int),
                    region.y_offset + i / (region.width as int),
                ),
            ),
    )
}

/// The numerator of the running average of `lumas` over the denominator
/// `255 * 2^lumas.len()`. Folding one more luma `l` into an average `n / (255 * 2^k)`
/// gives `(n / (255 * 2^k) + l / 255) / 2`, which is `(n + l * 2^k) / (255 * 2^(k + 1))`.
pub open spec fn average_numerator(lumas: Seq<int>) -> int
    decreases lumas.len(),
{
    if lumas.len() == 0 {
        0
    } else {
        average_numerator(lumas.drop_last()) + lumas.last() * pow2((lumas.len() - 1) as nat)
    }
}

/// Whether the running average of `lumas` is greater than one half.
pub open spec fn exceeds_half(lumas: Seq<int>) -> bool {
    2 * average_numerator(lumas) > 255 * pow2(lumas.len())
}

/// The colour of the text over a background with the given lumas.
pub open spec fn contrasting_color(lumas: Seq<int>) -> Rgb {
    if exceeds_half(lumas) {
        black()
    } else {
        white()
    }
}

/// The colour of a caption drawn into `region` of `grid`.
pub open spec fn text_color_of(grid: Grid, region: LayoutBox) -> Rgb {
    contrasting_color(region_lumas(grid, region))
}

/// Whether every element of `lumas` is a luma, from `0` to `255`.
pub open spec fn all_lumas(lumas: Seq<int>) -> bool {
    forall|i: int| 0 <= i < lumas.len() ==> 0 <= #[trigger] lumas[i] <= 255
}

/// Folding one more luma `l` into the running average `a` gives `(a + l / 255) / 2`:
/// over the denominator `255 * 2^(lumas.len() + 1)`, twice the new average is the old
/// average plus `l / 255`.
pub proof fn lemma_average_step(lumas: Seq<int>, l: int)
    ensures
        average_numerator(Seq::<int>::empty()) == 0,
        2 * average_numerator(lumas.push(l)) == 2 * average_numerator(lumas) + l * pow2(lumas.len() + 1),
{
    let longer = lumas.push(l);
    assert(longer.drop_last() =~= lumas);
    lemma_pow2_unfold(lumas.len() + 1);
    let p = pow2(lumas.len()) as int;
    assert(2 * (l * p) == l * (2 * p)) by (nonlinear_arith);
}

/// The running average lies between zero and one, one excluded.
pub proof fn lemma_average_range(lumas: Seq<int>)
    requires
        all_lumas(lumas),
    ensures
        0 <= average_numerator(lumas) <= 255 * (pow2(lumas.len()) - 1),
    decreases lumas.len(),
{
    if lumas.len() == 0 {
        assert(pow2(0) == 1) by {
            vstd::arithmetic::power2::lemma2_to64();
        }
    } else {
        let k = (lumas.len() - 1) as nat;
        let rest = lumas.drop_last();
        let last = lumas.last();
        lemma_average_range(rest);
        lemma_pow2_unfold(lumas.len());
        lemma_pow2_pos(k);
        let p = pow2(k) as int;
        assert(pow2(lumas.len()) == 2 * p);
        assert(0 <= last * p <= 255 * p) by (nonlinear_arith)
            requires
                0 <= last <= 255,
                0 < p,
        ;
    }
}

/// One step of the comparison, read from the last luma backwards: the average of
/// `lumas` exceeds `threshold / 510` exactly if the average of all but the last luma
/// exceeds `2 * (threshold - last) / 510`.
proof fn lemma_threshold_step(lumas: Seq<int>, threshold: int)
    requires
        lumas.len() > 0,
    ensures
        (2 * average_numerator(lumas) > threshold * pow2(lumas.len())) == (2 * average_numerator(
            lumas.drop_last(),
        ) > (2 * (threshold - lumas.last())) * pow2((lumas.len() - 1) as nat)),
{
    let k = (lumas.len() - 1) as nat;
    let p = pow2(k) as int;
    let rest = average_numerator(lumas.drop_last());
    let last = lumas.last();
    lemma_pow2_unfold(lumas.len());
    assert(pow2(lumas.len()) == 2 * p);
    assert(threshold * (2 * p) == 2 * (threshold * p)) by (nonlinear_arith);
    assert((2 * (threshold - last)) * p == 2 * (threshold * p) - 2 * (last * p))
        by (nonlinear_arith);
}

/// The text colour depends on the pixels of the caption box alone: two pictures that
/// agree there get the same colour.
pub proof fn lemma_text_color_depends_on_region(first: Grid, second: Grid, region: LayoutBox)
    requires
        forall|x: int, y: int| region.covers(x, y) ==> #[trigger] first.at(x, y) == second.at(x, y),
    ensures
        text_color_of(first, region) == text_color_of(second, region),
{
    assert forall|i: int| 0 <= i < region.area() implies region_lumas(first, region)[i] == region_lumas(
        second,
        region,
    )[i] by {
        lemma_region_position(region, i);
    }
    assert(region_lumas(first, region) =~= region_lumas(second, region));
}

/// A region of at least two pixels that are all white gets black text.
pub proof fn lemma_white_background_gets_black_text(grid: Grid, region: LayoutBox)
    requires
        region.area() >= 2,
        forall|x: int, y: int|
            region.covers(x, y) ==> #[trigger] grid.at(x, y).r == 255 && grid.at(x, y).g == 255
                && grid.at(x, y).b == 255,
    ensures
        text_color_of(grid, region) == black(),
{
    let lumas = region_lumas(grid, region);
    assert forall|i: int| 0 <= i < lumas.len() implies lumas[i] == 255 by {
        lemma_region_position(region, i);
    }
    lemma_uniform_average(lumas, 255);
    lemma_pow2_unfold(lumas.len());
    lemma_pow2_unfold((lumas.len() - 1) as nat);
    lemma_pow2_pos((lumas.len() - 2) as nat);
}

/// A region whose pixels are all black gets white text.
pub proof fn lemma_black_background_gets_white_text(grid: Grid, region: LayoutBox)
    requires
        forall|x: int, y: int|
            region.covers(x, y) ==> #[trigger] grid.at(x, y).r == 0 && grid.at(x, y).g == 0
                && grid.at(x, y).b == 0,
    ensures
        text_color_of(grid, region) == white(),
{
    let lumas = region_lumas(grid, region);
    assert forall|i: int| 0 <= i < lumas.len() implies lumas[i] == 0 by {
        lemma_region_position(region, i);
    }
    lemma_uniform_average(lumas, 0);
    lemma_pow2_pos(lumas.len());
}

/// The pixel whose luma stands at position `i` of a region's lumas belongs to the region.
pub proof fn lemma_region_position(region: LayoutBox, i: int)
    requires
        0 <= i < region.area(),
    ensures
        region.width > 0,
        0 <= i % (region.width as int) < region.width,
        0 <= i / (region.width as int) < region.height,
        region.covers(
            region.x_offset + i % (region.width as int),
            region.y_offset + i / (region.width as int),
        ),
{
    let w = region.width as int;
    let h = region.height as int;
    assert(w > 0) by (nonlinear_arith)
        requires
            0 <= i < w * h,
            0 <= w,
    ;
    vstd::arithmetic::div_mod::lemma_fundamental_div_mod(i, w);
    let q = i / w;
    let r = i % w;
    assert(0 <= q < h) by (nonlinear_arith)
        requires
            i == w * q + r,
            0 <= r < w,
            0 <= i < w * h,
    ;
}

/// The running average of `lumas.len()` equal lumas `l` has the numerator
/// `l * (2^lumas.len() - 1)`.
proof fn lemma_uniform_average(lumas: Seq<int>, l: int)
    requires
        forall|i: int| 0 <= i < lumas.len() ==> lumas[i] == l,
    ensures
        average_numerator(lumas) == l * (pow2(lumas.len()) - 1),
    decreases lumas.len(),
{
    if lumas.len() == 0 {
        assert(pow2(0) == 1) by {
            vstd::arithmetic::power2::lemma2_to64();
        }
    } else {
        let k = (lumas.len() - 1) as nat;
        lemma_uniform_average(lumas.drop_last(), l);
        lemma_pow2_unfold(lumas.len());
        let p = pow2(k) as int;
        assert(pow2(lumas.len()) == 2 * p);
        assert(l * (p - 1) + l * p == l * (2 * p - 1)) by (nonlinear_arith);
    }
}

/// Whether the running average of the lumas of `region` exceeds one half. The pixels
/// are read from the last one backwards, and only as far as the answer is open.
pub fn region_is_bright(image: &Bitmap, region: &LayoutBox) -> (bright: bool)
    requires
        region.within(image@),
    ensures
        bright == exceeds_half(region_lumas(image@, *region)),
{
    proof {
        use_type_invariant(image);
    }
    let width: u64 = region.width as u64;
    assert(region.width * region.height <= u64::MAX) by (nonlinear_arith)
        requires
            region.width <= u32::MAX,
            region.height <= u32::MAX,
    ;
    let count: u64 = width * region.height as u64;
    let ghost lumas = region_lumas(image@, *region);
    let mut remaining: u64 = count;
    let mut threshold: i32 = 255;
    assert(lumas.take(count as int) =~= lumas);
    while remaining > 0
        invariant
            remaining <= count,
            count == region.area(),
            width == region.width,
            region.within(image@),
            image@.well_formed(),
            image@.width <= u32::MAX,
            image@.height <= u32::MAX,
            lumas == region_lumas(image@, *region),
            0 <= threshold < 510,
            exceeds_half(lumas) == (2 * average_numerator(lumas.take(remaining as int)) > threshold
                * pow2(remaining as nat)),
        decreases remaining,
    {
        let ghost seen = lumas.take(remaining as int);
        remaining = remaining - 1;
        proof {
            lemma_region_position(*region, remaining as int);
        }
        let x: u32 = (remaining % width) as u32;
        let y: u32 = (remaining / width) as u32;
        let luma = pixel_to_luma(image.get_pixel(region.x_offset + x, region.y_offset + y));
        let next: i32 = 2 * (threshold - luma as i32);
        proof {
            assert(seen.last() == luma);
            assert(seen.drop_last() =~= lumas.take(remaining as int));
            lemma_threshold_step(seen, threshold as int);
            assert forall|i: int| 0 <= i < remaining implies 0 <= #[trigger] lumas.take(
                remaining as int,
            )[i] <= 255 by {}
            lemma_average_range(lumas.take(remaining as int));
            lemma_pow2_pos(remaining as nat);
            let p = pow2(remaining as nat) as int;
            let n = average_numerator(lumas.take(remaining as int));
            if next < 0 {
                assert(next * p < 0) by (nonlinear_arith)
                    requires
                        next < 0,
                        p > 0,
                ;
            }
            if next >= 510 {
                assert(next * p >= 510 * p) by (nonlinear_arith)
                    requires
                        next >= 510,
                        p > 0,
                ;
            }
        }
        if next < 0 {
            return true;
        }
        if next >= 510 {
            return false;
        }
        threshold = next;
    }
    proof {
        assert(pow2(0) == 1) by {
            vstd::arithmetic::power2::lemma2_to64();
        }
        assert(lumas.take(0).len() == 0);
    }
    false
}

/// The colour in which a caption is drawn into `region` of `image`: black where the
/// running average of the region's lumas exceeds one half, white otherwise.
pub fn choose_text_color(image: &Bitmap, region: &LayoutBox) -> (color: Rgb)
    requires
        region.within(image@),
    ensures
        color == text_color_of(image@, *region),
{
    if region_is_bright(image, region) {
        Rgb { r: 0, g: 0, b: 0 }
    } else {
        Rgb { r: 255, g: 255, b: 255 }
    }
}

} // verus!
