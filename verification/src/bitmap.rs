//! An RGBA bitmap with a two-dimensional mathematical model.

use vstd::prelude::*;

verus! {

/// One pixel: red, green, blue and alpha, eight bits each.
#[derive(Clone, Copy, Debug, PartialEq, Eq, Structural)]
pub struct Rgba {
    pub r: u8,
    pub g: u8,
    pub b: u8,
    pub a: u8,
}

/// The mathematical model of a bitmap: its dimensions and its pixels in row-major order,
/// the pixel `(0, 0)` being the top-left one.
pub struct Grid {
    pub width: nat,
    pub height: nat,
    pub pixels: Seq<Rgba>,
}

impl Grid {
    /// There is exactly one pixel for each coordinate.
    pub open spec fn well_formed(self) -> bool {
        self.pixels.len() == self.width * self.height
    }

    /// Whether `(x, y)` addresses a pixel of the grid.
    pub open spec fn contains(self, x: int, y: int) -> bool {
        0 <= x < self.width && 0 <= y < self.height
    }

    /// The position of `(x, y)` in the row-major sequence.
    pub open spec fn offset(self, x: int, y: int) -> int {
        y * self.width + x
    }

    /// The pixel at `(x, y)`.
    pub open spec fn at(self, x: int, y: int) -> Rgba {
        self.pixels[self.offset(x, y)]
    }

    /// The grid with the pixel at `(x, y)` replaced by `pixel`.
    pub open spec fn put(self, x: int, y: int, pixel: Rgba) -> Grid {
        Grid { width: self.width, height: self.height, pixels: self.pixels.update(self.offset(x, y), pixel) }
    }
}

/// Every coordinate inside the grid has a position inside the sequence.
pub proof fn lemma_offset_in_range(grid: Grid, x: int, y: int)
    requires
        grid.well_formed(),
        grid.contains(x, y),
    ensures
        0 <= grid.offset(x, y) < grid.pixels.len(),
{
    let w = grid.width as int;
    let h = grid.height as int;
    assert(y * w + x < w * h) by (nonlinear_arith)
        requires
            0 <= x < w,
            0 <= y < h,
    ;
    assert(0 <= y * w + x) by (nonlinear_arith)
        requires
            0 <= x < w,
            0 <= y < h,
    ;
}

/// Two coordinates inside the grid share a position only if they are the same coordinate.
pub proof fn lemma_offset_injective(grid: Grid, x1: int, y1: int, x2: int, y2: int)
    requires
        grid.contains(x1, y1),
        grid.contains(x2, y2),
        grid.offset(x1, y1) == grid.offset(x2, y2),
    ensures
        x1 == x2,
        y1 == y2,
{
    let w = grid.width as int;
    assert(y1 == y2) by (nonlinear_arith)
        requires
            0 <= x1 < w,
            0 <= x2 < w,
            y1 * w + x1 == y2 * w + x2,
    ;
}

/// Writing one pixel changes that pixel and no other.
pub proof fn lemma_put_at(grid: Grid, x: int, y: int, pixel: Rgba, x2: int, y2: int)
    requires
        grid.well_formed(),
        grid.contains(x, y),
        grid.contains(x2, y2),
    ensures
        grid.put(x, y, pixel).well_formed(),
        grid.put(x, y, pixel).at(x2, y2) == if x2 == x && y2 == y {
            pixel
        } else {
            grid.at(x2, y2)
        },
{
    lemma_offset_in_range(grid, x, y);
    lemma_offset_in_range(grid, x2, y2);
    if grid.offset(x, y) == grid.offset(x2, y2) {
        lemma_offset_injective(grid, x, y, x2, y2);
    }
}

/// The pixels that a buffer of RGBA bytes holds, four bytes to a pixel.
pub open spec fn pixels_of_bytes(bytes: Seq<u8>) -> Seq<Rgba> {
    Seq::new(
        (bytes.len() / 4) as nat,
        |i: int| Rgba { r: bytes[4 * i], g: bytes[4 * i + 1], b: bytes[4 * i + 2], a: bytes[4 * i + 3] },
    )
}

/// The channel of `pixel` that stands at position `channel` of its four bytes.
pub open spec fn channel_of(pixel: Rgba, channel: int) -> u8 {
    if channel == 0 {
        pixel.r
    } else if channel == 1 {
        pixel.g
    } else if channel == 2 {
        pixel.b
    } else {
        pixel.a
    }
}

/// The buffer of RGBA bytes that holds `pixels`.
pub open spec fn bytes_of_pixels(pixels: Seq<Rgba>) -> Seq<u8> {
    Seq::new(pixels.len() * 4, |j: int| channel_of(pixels[j / 4], j % 4))
}

/// Reading back the bytes written for a sequence of pixels gives these pixels.
pub proof fn lemma_bytes_round_trip(pixels: Seq<Rgba>)
    ensures
        pixels_of_bytes(bytes_of_pixels(pixels)) == pixels,
{
    let bytes = bytes_of_pixels(pixels);
    assert(bytes.len() / 4 == pixels.len());
    assert forall|i: int| 0 <= i < pixels.len() implies pixels_of_bytes(bytes)[i] == pixels[i] by {
        assert((4 * i) / 4 == i && (4 * i) % 4 == 0);
        assert((4 * i + 1) / 4 == i && (4 * i + 1) % 4 == 1);
        assert((4 * i + 2) / 4 == i && (4 * i + 2) % 4 == 2);
        assert((4 * i + 3) / 4 == i && (4 * i + 3) % 4 == 3);
    }
    assert(pixels_of_bytes(bytes) =~= pixels);
}

/// The number of pixels of an image of the given size.
fn area(width: u32, height: u32) -> (count: u64)
    ensures
        count == width * height,
{
    assert(width * height <= u64::MAX) by (nonlinear_arith)
        requires
            width <= u32::MAX,
            height <= u32::MAX,
    ;
    width as u64 * height as u64
}

/// A bitmap of RGBA pixels, addressed by `(x, y)` from the top-left corner.
pub struct Bitmap {
    width: u32,
    height: u32,
    pixels: Vec<Rgba>,
}

impl View for Bitmap {
    type V = Grid;

    closed spec fn view(&self) -> Grid {
        Grid { width: self.width as nat, height: self.height as nat, pixels: self.pixels@ }
    }
}

impl Bitmap {
    /// What every bitmap maintains: there is one pixel for each coordinate, and the
    /// width and the height are 32-bit numbers.
    #[verifier::type_invariant]
    pub open spec fn consistent(self) -> bool {
        self@.well_formed() && self@.width <= u32::MAX && self@.height <= u32::MAX
    }

    /// The width in pixels.
    pub fn width(&self) -> (w: u32)
        ensures
            w == self@.width,
            self@.well_formed(),
    {
        proof {
            use_type_invariant(self);
        }
        self.width
    }

    /// The height in pixels.
    pub fn height(&self) -> (h: u32)
        ensures
            h == self@.height,
            self@.well_formed(),
    {
        proof {
            use_type_invariant(self);
        }
        self.height
    }

    /// Where the pixel at `(x, y)` is stored.
    fn index_of(&self, x: u32, y: u32) -> (index: usize)
        requires
            self@.contains(x as int, y as int),
        ensures
            index == self@.offset(x as int, y as int),
            index < self.pixels@.len(),
    {
        let stored: usize = self.pixels.len();
        proof {
            use_type_invariant(self);
            lemma_offset_in_range(self@, x as int, y as int);
            assert(0 <= y as int * self.width as int) by (nonlinear_arith);
            assert(self@.offset(x as int, y as int) < stored);
        }
        y as usize * self.width as usize + x as usize
    }

    /// The pixel at `(x, y)`, which must lie inside the bitmap.
    pub fn get_pixel(&self, x: u32, y: u32) -> (pixel: Rgba)
        requires
            self@.contains(x as int, y as int),
        ensures
            pixel == self@.at(x as int, y as int),
    {
        let index = self.index_of(x, y);
        self.pixels[index]
    }
    /// The pixel at `(x, y)`, or `None` where `(x, y)` lies outside the bitmap.
    pub fn pixel_at(&self, x: u32, y: u32) -> (found: Option<Rgba>)
        ensures
            found == if self@.contains(x as int, y as int) {
                Some(self@.at(x as int, y as int))
            } else {
                None
            },
    {
        if x < self.width && y < self.height {
            Some(self.get_pixel(x, y))
        } else {
            None
        }
    }

    /// Replaces the pixel at `(x, y)`, which must lie inside the bitmap.
    pub fn put_pixel(&mut self, x: u32, y: u32, pixel: Rgba)
        requires
            old(self)@.contains(x as int, y as int),
        ensures
            final(self)@ == old(self)@.put(x as int, y as int, pixel),
            final(self)@.well_formed(),
    {
        let index = self.index_of(x, y);
        let mut taken = Bitmap { width: 0, height: 0, pixels: Vec::new() };
        core::mem::swap(self, &mut taken);
        proof {
            use_type_invariant(&taken);
        }
        let Bitmap { width, height, mut pixels } = taken;
        pixels.set(index, pixel);
        *self = Bitmap { width, height, pixels };
    }

    /// A bitmap of the given size with every pixel equal to `pixel`; `None` where the
    /// number of pixels does not fit the machine's address space.
    pub fn filled(width: u32, height: u32, pixel: Rgba) -> (made: Option<Bitmap>)
        ensures
            made is Some <==> width * height <= usize::MAX,
            made is Some ==> {
                &&& made->0@.width == width
                &&& made->0@.height == height
                &&& made->0@.well_formed()
                &&& forall|i: int| 0 <= i < width * height ==> made->0@.pixels[i] == pixel
            },
    {
        let count: u64 = area(width, height);
        if count > usize::MAX as u64 {
            return None;
        }
        let mut pixels: Vec<Rgba> = Vec::new();
        let mut i: u64 = 0;
        while i < count
            invariant
                i <= count,
                count <= usize::MAX,
                pixels@.len() == i,
                forall|k: int| 0 <= k < i ==> pixels@[k] == pixel,
            decreases count - i,
        {
            pixels.push(pixel);
            i = i + 1;
        }
        Some(Bitmap { width, height, pixels })
    }

    /// The bitmap of the given size whose pixels are read from `bytes`, four bytes (red,
    /// green, blue, alpha) to a pixel, row by row; `None` unless `bytes` holds exactly
    /// four bytes for each of its `width * height` pixels.
    pub fn from_raw(width: u32, height: u32, bytes: &Vec<u8>) -> (made: Option<Bitmap>)
        ensures
            made is Some <==> bytes@.len() == 4 * (width * height),
            made is Some ==> made->0@ == (Grid {
                width: width as nat,
                height: height as nat,
                pixels: pixels_of_bytes(bytes@),
            }),
            made is Some ==> made->0@.well_formed(),
    {
        let count: u64 = area(width, height);
        let length: usize = bytes.len();
        if count > (usize::MAX / 4) as u64 || length as u64 != 4 * count {
            return None;
        }
        let mut pixels: Vec<Rgba> = Vec::new();
        let mut i: usize = 0;
        while i < count as usize
            invariant
                i <= count,
                length == bytes@.len(),
                length == 4 * count,
                pixels@.len() == i,
                forall|k: int| 0 <= k < i ==> pixels@[k] == pixels_of_bytes(bytes@)[k],
            decreases count - i,
        {
            pixels.push(Rgba { r: bytes[4 * i], g: bytes[4 * i + 1], b: bytes[4 * i + 2], a: bytes[4 * i + 3] });
            i = i + 1;
        }
        assert(pixels@ =~= pixels_of_bytes(bytes@));
        Some(Bitmap { width, height, pixels })
    }

    /// The pixels as RGBA bytes, row by row.
    pub fn to_raw(&self) -> (bytes: Vec<u8>)
        ensures
            bytes@ == bytes_of_pixels(self@.pixels),
    {
        let mut bytes: Vec<u8> = Vec::new();
        let count: usize = self.pixels.len();
        let mut i: usize = 0;
        while i < count
            invariant
                i <= count,
                count == self.pixels@.len(),
                bytes@.len() == 4 * i,
                forall|j: int| 0 <= j < 4 * i ==> bytes@[j] == channel_of(self.pixels@[j / 4], j % 4),
            decreases count - i,
        {
            let pixel = self.pixels[i];
            bytes.push(pixel.r);
            bytes.push(pixel.g);
            bytes.push(pixel.b);
            bytes.push(pixel.a);
            i = i + 1;
        }
        assert(bytes@ =~= bytes_of_pixels(self@.pixels));
        bytes
    }
}

} // verus!
