//! The logical image: a row-major grid of pixels with its origin at the
//! top left.

use vstd::prelude::*;
use crate::entropy::random_byte;
use crate::error::CanvasError;
use crate::pixel::Pixel;

verus! {

/// The mathematical value of a pixel buffer: its dimensions and its pixels
/// in row-major order.
pub struct PixelGrid {
    pub width: nat,
    pub height: nat,
    pub pixels: Seq<Pixel>,
}

impl PixelGrid {
    /// A grid is well formed when it has at least one row and one column
    /// and holds exactly `width * height` pixels.
    pub open spec fn wf(self) -> bool {
        &&& self.width >= 1
        &&& self.height >= 1
        &&& self.pixels.len() == self.width * self.height
    }

    /// Whether column `x` of row `y` lies inside the grid.
    pub open spec fn contains(self, x: int, y: int) -> bool {
        0 <= x < self.width && 0 <= y < self.height
    }

    /// The position of `(x, y)` in the row-major pixel sequence.
    pub open spec fn index_of(self, x: int, y: int) -> int {
        y * self.width + x
    }

    /// The pixel at `(x, y)`.
    pub open spec fn get(self, x: int, y: int) -> Pixel {
        self.pixels[self.index_of(x, y)]
    }

    /// This grid with the pixel at `(x, y)` replaced by `value`.
    pub open spec fn set(self, x: int, y: int, value: Pixel) -> PixelGrid {
        PixelGrid {
            width: self.width,
            height: self.height,
            pixels: self.pixels.update(self.index_of(x, y), value),
        }
    }

    /// This grid with the pixel at `(x, y)` colour-inverted.
    pub open spec fn toggled(self, x: int, y: int) -> PixelGrid {
        self.set(x, y, self.get(x, y).spec_inverted())
    }

    /// The grid of the given size in which every pixel is `fill`.
    pub open spec fn filled(width: nat, height: nat, fill: Pixel) -> PixelGrid {
        PixelGrid { width, height, pixels: Seq::new(width * height, |i: int| fill) }
    }

    /// Whether every pixel of the grid is `colour`.
    pub open spec fn uniform(self, colour: Pixel) -> bool {
        forall|i: int| 0 <= i < self.pixels.len() ==> self.pixels[i] == colour
    }

    /// Whether `other` has the dimensions of this grid.
    pub open spec fn same_size(self, other: PixelGrid) -> bool {
        self.width == other.width && self.height == other.height
    }

    /// The colour of position `(x, y)` in the gradient pattern of a grid
    /// of `width` by `height` pixels: red grows from left to right, green
    /// from top to bottom, and blue is half way.
    pub open spec fn gradient_pixel(width: nat, height: nat, x: int, y: int) -> Pixel {
        Pixel {
            red: (x * 255 / (width as int)) as u8,
            green: (y * 255 / (height as int)) as u8,
            blue: 128,
        }
    }

    /// The grid of the given size that holds the gradient pattern.
    pub open spec fn gradient(width: nat, height: nat) -> PixelGrid {
        PixelGrid {
            width,
            height,
            pixels: Seq::new(
                width * height,
                |i: int|
                    PixelGrid::gradient_pixel(width, height, i % (width as int), i / (width as int)),
            ),
        }
    }

    /// This grid with its pixels read from `channels`: three bytes per
    /// pixel in row-major order, red first, then green, then blue.
    pub open spec fn with_rgb(self, channels: Seq<u8>) -> PixelGrid {
        PixelGrid {
            width: self.width,
            height: self.height,
            pixels: Seq::new(
                self.pixels.len(),
                |i: int|
                    Pixel {
                        red: channels[3 * i],
                        green: channels[3 * i + 1],
                        blue: channels[3 * i + 2],
                    },
            ),
        }
    }

    /// The RGBA encoding of the grid: four bytes per pixel in row-major
    /// order, the fourth always 255.
    pub open spec fn rgba_bytes(self) -> Seq<u8> {
        Seq::new(4 * self.pixels.len(), |i: int| self.pixels[i / 4].rgba_channel(i % 4))
    }
}

/// Inside a well-formed grid the row-major index of a position is a valid
/// index into the pixel sequence.
pub proof fn lemma_index_in_range(g: PixelGrid, x: int, y: int)
    requires
        g.wf(),
        g.contains(x, y),
    ensures
        0 <= g.index_of(x, y) < g.pixels.len(),
{
    assert(0 <= y * g.width && y * g.width + g.width <= g.height * g.width) by (nonlinear_arith)
        requires
            0 <= y < g.height,
            g.width >= 0,
    ;
    assert(g.height * g.width == g.width * g.height) by (nonlinear_arith);
}

/// Two positions inside a grid have the same row-major index only if they
/// are the same position.
pub proof fn lemma_index_injective(g: PixelGrid, x1: int, y1: int, x2: int, y2: int)
    requires
        g.wf(),
        g.contains(x1, y1),
        g.contains(x2, y2),
        g.index_of(x1, y1) == g.index_of(x2, y2),
    ensures
        x1 == x2 && y1 == y2,
{
    assert(y1 == y2) by (nonlinear_arith)
        requires
            0 <= x1 < g.width,
            0 <= x2 < g.width,
            y1 * g.width + x1 == y2 * g.width + x2,
    ;
}

/// The row-major index of column `x` of row `y` in a grid `width` columns
/// wide.
pub fn get_linear_index(x: usize, y: usize, width: usize) -> (index: usize)
    requires
        y * width + x <= usize::MAX,
    ensures
        index == y * width + x,
{
    (y * width) + x
}

/// A grid of pixels. Every buffer has at least one pixel and holds exactly
/// `width * height` of them.
#[derive(Debug)]
pub struct PixelBuffer {
    width: u32,
    height: u32,
    pixels: Vec<Pixel>,
}

impl View for PixelBuffer {
    type V = PixelGrid;

    closed spec fn view(&self) -> PixelGrid {
        PixelGrid {
            width: self.width as nat,
            height: self.height as nat,
            pixels: self.pixels@,
        }
    }
}

impl PixelBuffer {
    /// The invariant of a buffer: its grid is well formed.
    pub open spec fn wf(&self) -> bool {
        self@.wf()
    }

    /// A buffer of `width` by `height` pixels, all of them `fill`. A width
    /// or height of zero is refused.
    pub fn create(width: u32, height: u32, fill: Pixel) -> (r: Result<PixelBuffer, CanvasError>)
        ensures
            r is Ok <==> width >= 1 && height >= 1,
            r is Err ==> r == Err::<PixelBuffer, CanvasError>(CanvasError::InvalidDimension),
            r matches Ok(b) ==> b.wf() && b@ == PixelGrid::filled(width as nat, height as nat, fill),
    {
        if width == 0 || height == 0 {
            return Err(CanvasError::InvalidDimension);
        }
        assert(width * height <= u64::MAX) by (nonlinear_arith)
            requires
                width <= u32::MAX,
                height <= u32::MAX,
        ;
        let total: u64 = width as u64 * height as u64;
        let mut pixels: Vec<Pixel> = Vec::new();
        let mut count: u64 = 0;
        while count < total
            invariant
                count <= total,
                pixels@.len() == count,
                forall|i: int| 0 <= i < pixels@.len() ==> pixels@[i] == fill,
            decreases total - count,
        {
            pixels.push(fill);
            count = count + 1;
        }
        let buffer = PixelBuffer { width, height, pixels };
        assert(buffer@.pixels =~= PixelGrid::filled(width as nat, height as nat, fill).pixels);
        Ok(buffer)
    }

    /// A buffer of `width` by `height` pixels that holds the gradient
    /// pattern. A width or height of zero is refused.
    pub fn gradient(width: u32, height: u32) -> (r: Result<PixelBuffer, CanvasError>)
        ensures
            r is Ok <==> width >= 1 && height >= 1,
            r is Err ==> r == Err::<PixelBuffer, CanvasError>(CanvasError::InvalidDimension),
            r matches Ok(b) ==> b.wf() && b@ == PixelGrid::gradient(width as nat, height as nat),
    {
        if width == 0 || height == 0 {
            return Err(CanvasError::InvalidDimension);
        }
        let mut pixels: Vec<Pixel> = Vec::new();
        let mut y: u32 = 0;
        while y < height
            invariant
                width >= 1,
                height >= 1,
                y <= height,
                pixels@.len() == y * width,
                forall|i: int|
                    0 <= i < pixels@.len() ==> pixels@[i] == PixelGrid::gradient_pixel(
                        width as nat,
                        height as nat,
                        i % (width as int),
                        i / (width as int),
                    ),
            decreases height - y,
        {
            let green: u64 = y as u64 * 255 / height as u64;
            assert(y * 255 / (height as int) < 255) by (nonlinear_arith)
                requires
                    0 <= y < height,
            ;
            let mut x: u32 = 0;
            while x < width
                invariant
                    width >= 1,
                    height >= 1,
                    y < height,
                    x <= width,
                    green == y * 255 / (height as int),
                    green < 255,
                    pixels@.len() == y * width + x,
                    forall|i: int|
                        0 <= i < pixels@.len() ==> pixels@[i] == PixelGrid::gradient_pixel(
                            width as nat,
                            height as nat,
                            i % (width as int),
                            i / (width as int),
                        ),
                decreases width - x,
            {
                let red: u64 = x as u64 * 255 / width as u64;
                assert(x * 255 / (width as int) < 255) by (nonlinear_arith)
                    requires
                        0 <= x < width,
                ;
                proof {
                    let i = pixels@.len() as int;
                    assert(i == (width as int) * (y as int) + (x as int)) by (nonlinear_arith)
                        requires
                            i == y * width + x,
                    ;
                    vstd::arithmetic::div_mod::lemma_fundamental_div_mod_converse(
                        i,
                        width as int,
                        y as int,
                        x as int,
                    );
                }
                pixels.push(Pixel { red: red as u8, green: green as u8, blue: 128 });
                x = x + 1;
            }
            assert(y * width + width == (y + 1) * width) by (nonlinear_arith);
            y = y + 1;
        }
        assert(height * width == width * height) by (nonlinear_arith);
        let buffer = PixelBuffer { width, height, pixels };
        assert(buffer@.pixels =~= PixelGrid::gradient(width as nat, height as nat).pixels);
        Ok(buffer)
    }

    /// The number of columns.
    pub fn width(&self) -> (w: u32)
        ensures
            w == self@.width,
    {
        self.width
    }

    /// The number of rows.
    pub fn height(&self) -> (h: u32)
        ensures
            h == self@.height,
    {
        self.height
    }

    /// The pixels in row-major order.
    pub fn pixels(&self) -> (p: &Vec<Pixel>)
        ensures
            p@ == self@.pixels,
    {
        &self.pixels
    }

    /// The pixel at column `x` of row `y`; a position outside the buffer
    /// is an error.
    pub fn get(&self, x: u32, y: u32) -> (r: Result<Pixel, CanvasError>)
        requires
            self.wf(),
        ensures
            r is Ok <==> self@.contains(x as int, y as int),
            r is Err ==> r == Err::<Pixel, CanvasError>(CanvasError::OutOfBounds),
            r matches Ok(p) ==> p == self@.get(x as int, y as int),
    {
        if x >= self.width || y >= self.height {
            return Err(CanvasError::OutOfBounds);
        }
        proof {
            lemma_index_in_range(self@, x as int, y as int);
            assert(self@.index_of(x as int, y as int) == y * self.width + x < self.pixels.len());
        }
        let index = get_linear_index(x as usize, y as usize, self.width as usize);
        Ok(self.pixels[index])
    }

    /// Replaces the pixel at column `x` of row `y` by `value`; a position
    /// outside the buffer is an error and changes nothing.
    pub fn set(&mut self, x: u32, y: u32, value: Pixel) -> (r: Result<(), CanvasError>)
        requires
            old(self).wf(),
        ensures
            final(self).wf(),
            r is Ok <==> old(self)@.contains(x as int, y as int),
            r is Err ==> r == Err::<(), CanvasError>(CanvasError::OutOfBounds),
            r is Ok ==> final(self)@ == old(self)@.set(x as int, y as int, value),
            r is Err ==> final(self)@ == old(self)@,
    {
        if x >= self.width || y >= self.height {
            return Err(CanvasError::OutOfBounds);
        }
        proof {
            lemma_index_in_range(self@, x as int, y as int);
            assert(self@.index_of(x as int, y as int) == y * self.width + x < self.pixels.len());
        }
        let index = get_linear_index(x as usize, y as usize, self.width as usize);
        self.pixels.set(index, value);
        Ok(())
    }

    /// Colour-inverts the pixel at column `x` of row `y`; a position
    /// outside the buffer is an error and changes nothing.
    pub fn toggle(&mut self, x: u32, y: u32) -> (r: Result<(), CanvasError>)
        requires
            old(self).wf(),
        ensures
            final(self).wf(),
            r is Ok <==> old(self)@.contains(x as int, y as int),
            r is Err ==> r == Err::<(), CanvasError>(CanvasError::OutOfBounds),
            r is Ok ==> final(self)@ == old(self)@.toggled(x as int, y as int),
            r is Err ==> final(self)@ == old(self)@,
    {
        match self.get(x, y) {
            Ok(pixel) => self.set(x, y, pixel.inverted()),
            Err(e) => Err(e),
        }
    }

    /// Replaces every pixel by the colour that `channels` gives it: three
    /// bytes per pixel in row-major order, red first, then green, then
    /// blue. A byte count other than three times the pixel count is
    /// refused and changes nothing.
    pub fn load_rgb(&mut self, channels: &Vec<u8>) -> (r: Result<(), CanvasError>)
        requires
            old(self).wf(),
        ensures
            final(self).wf(),
            r is Ok <==> channels@.len() == 3 * old(self)@.pixels.len(),
            r is Err ==> r == Err::<(), CanvasError>(CanvasError::InvalidDimension),
            r is Ok ==> final(self)@ == old(self)@.with_rgb(channels@),
            r is Err ==> final(self)@ == old(self)@,
    {
        let len: usize = self.pixels.len();
        if channels.len() / 3 != len || channels.len() % 3 != 0 {
            return Err(CanvasError::InvalidDimension);
        }
        let mut i: usize = 0;
        while i < len
            invariant
                i <= len,
                len == self.pixels@.len(),
                channels@.len() == 3 * len <= usize::MAX,
                self.pixels@.len() == old(self).pixels@.len(),
                self.width == old(self).width,
                self.height == old(self).height,
                forall|j: int|
                    0 <= j < i ==> self.pixels@[j] == (Pixel {
                        red: channels@[3 * j],
                        green: channels@[3 * j + 1],
                        blue: channels@[3 * j + 2],
                    }),
            decreases len - i,
        {
            let pixel = Pixel::new(channels[3 * i], channels[3 * i + 1], channels[3 * i + 2]);
            self.pixels.set(i, pixel);
            i = i + 1;
        }
        assert(self@.pixels =~= old(self)@.with_rgb(channels@).pixels);
        Ok(())
    }

    /// Replaces every pixel by one whose three channels are drawn at
    /// random, each independently. The dimensions stay as they are; of the
    /// new colours nothing is promised.
    pub fn randomize(&mut self)
        requires
            old(self).wf(),
        ensures
            final(self).wf(),
            final(self)@.same_size(old(self)@),
    {
        let len: usize = self.pixels.len();
        let mut channels: Vec<u8> = Vec::new();
        let mut i: usize = 0;
        while i < len
            invariant
                i <= len,
                channels@.len() == 3 * i,
            decreases len - i,
        {
            channels.push(random_byte());
            channels.push(random_byte());
            channels.push(random_byte());
            i = i + 1;
        }
        let _ = self.load_rgb(&channels);
    }

    /// The buffer as RGBA bytes: four per pixel in row-major order, with
    /// the alpha byte always 255.
    pub fn to_rgba_bytes(&self) -> (bytes: Vec<u8>)
        ensures
            bytes@ == self@.rgba_bytes(),
    {
        let len: usize = self.pixels.len();
        let mut bytes: Vec<u8> = Vec::new();
        let mut i: usize = 0;
        while i < len
            invariant
                i <= len,
                len == self.pixels@.len(),
                bytes@.len() == 4 * i,
                forall|j: int|
                    0 <= j < bytes@.len() ==> bytes@[j] == self.pixels@[j / 4].rgba_channel(j % 4),
            decreases len - i,
        {
            let pixel: Pixel = self.pixels[i];
            bytes.push(pixel.red);
            bytes.push(pixel.green);
            bytes.push(pixel.blue);
            bytes.push(255u8);
            i = i + 1;
        }
        bytes
    }
}

/// A well-formed grid holds `width * height` pixels, and a grid filled
/// with one colour is well formed, uniform, and of the size asked for.
pub proof fn lemma_filled(width: nat, height: nat, fill: Pixel)
    requires
        width >= 1,
        height >= 1,
    ensures
        PixelGrid::filled(width, height, fill).wf(),
        PixelGrid::filled(width, height, fill).pixels.len() == width * height,
        PixelGrid::filled(width, height, fill).uniform(fill),
{
}

/// Writing a pixel keeps the grid well formed, and reading the position
/// just written gives the pixel written.
pub proof fn lemma_set_then_get(g: PixelGrid, x: int, y: int, value: Pixel)
    requires
        g.wf(),
        g.contains(x, y),
    ensures
        g.set(x, y, value).wf(),
        g.set(x, y, value).get(x, y) == value,
{
    lemma_index_in_range(g, x, y);
}

/// Writing a pixel leaves every other position as it was.
pub proof fn lemma_set_keeps_others(g: PixelGrid, x: int, y: int, value: Pixel, x2: int, y2: int)
    requires
        g.wf(),
        g.contains(x, y),
        g.contains(x2, y2),
        x2 != x || y2 != y,
    ensures
        g.set(x, y, value).get(x2, y2) == g.get(x2, y2),
{
    lemma_index_in_range(g, x, y);
    lemma_index_in_range(g, x2, y2);
    if g.index_of(x, y) == g.index_of(x2, y2) {
        lemma_index_injective(g, x, y, x2, y2);
    }
}

/// Toggling a pixel inverts it: each channel `c` becomes `255 - c`.
pub proof fn lemma_toggle_inverts(g: PixelGrid, x: int, y: int)
    requires
        g.wf(),
        g.contains(x, y),
    ensures
        g.toggled(x, y).wf(),
        g.toggled(x, y).get(x, y) == g.get(x, y).spec_inverted(),
{
    lemma_set_then_get(g, x, y, g.get(x, y).spec_inverted());
}

/// Toggling the same pixel twice restores the grid exactly.
pub proof fn lemma_toggle_twice(g: PixelGrid, x: int, y: int)
    requires
        g.wf(),
        g.contains(x, y),
    ensures
        g.toggled(x, y).toggled(x, y) == g,
{
    lemma_index_in_range(g, x, y);
    assert(g.toggled(x, y).toggled(x, y).pixels =~= g.pixels);
}

/// The RGBA encoding has four bytes for each pixel, and every fourth byte
/// is 255.
pub proof fn lemma_rgba_layout(g: PixelGrid, i: int)
    requires
        0 <= i < g.pixels.len(),
    ensures
        g.rgba_bytes().len() == 4 * g.pixels.len(),
        g.rgba_bytes()[4 * i] == g.pixels[i].red,
        g.rgba_bytes()[4 * i + 1] == g.pixels[i].green,
        g.rgba_bytes()[4 * i + 2] == g.pixels[i].blue,
        g.rgba_bytes()[4 * i + 3] == 255,
{
}

} // verus!
