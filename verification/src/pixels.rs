//! Decoded images: a grid of RGBA samples, one byte per channel, stored row
//! by row from the top.

use vstd::prelude::*;
use crate::color::Color;
use crate::geometry::Rect;

verus! {

/// A decoded image. It never changes after it was made.
#[derive(Debug, PartialEq, Eq)]
pub struct PixelBuffer {
    width: u32,
    height: u32,
    samples: Vec<u8>,
}

/// The number of bytes that an image of `width` by `height` pixels takes.
pub open spec fn sample_count(width: u32, height: u32) -> nat {
    (width as nat) * (height as nat) * 4
}

/// The pixel at column `x` of row `y` in a grid of `width` columns.
pub open spec fn pixel_in(samples: Seq<u8>, width: u32, x: u32, y: u32) -> Color {
    let start = (y as int * width as int + x as int) * 4;
    Color {
        r: samples[start],
        g: samples[start + 1],
        b: samples[start + 2],
        a: samples[start + 3],
    }
}

/// In a grid of `width` by `height` pixels of four bytes each, the four bytes
/// of the pixel at `(x, y)` lie inside the grid's bytes.
pub proof fn pixel_lies_inside(width: u32, height: u32, x: u32, y: u32)
    requires
        x < width,
        y < height,
    ensures
        0 <= y as int * width as int <= (y as int * width as int + x as int) * 4,
        (y as int * width as int + x as int) * 4 + 3 < sample_count(width, height),
{
    let w = width as int;
    let h = height as int;
    let row = y as int;
    assert(0 <= row * w) by (nonlinear_arith)
        requires
            0 <= row,
            0 <= w,
    ;
    assert(row * w + w <= h * w) by (nonlinear_arith)
        requires
            row + 1 <= h,
            0 <= w,
    ;
    assert(h * w == w * h) by (nonlinear_arith);
}

impl PixelBuffer {
    /// The number of columns.
    pub closed spec fn spec_width(&self) -> u32 {
        self.width
    }

    /// The number of rows.
    pub closed spec fn spec_height(&self) -> u32 {
        self.height
    }

    /// The samples, row by row, four bytes for each pixel.
    pub closed spec fn view(&self) -> Seq<u8> {
        self.samples@
    }

    #[verifier::type_invariant]
    spec fn sized(&self) -> bool {
        self.samples@.len() == sample_count(self.width, self.height)
    }

    /// The buffer holds exactly four bytes for each of its pixels.
    pub open spec fn well_formed(&self) -> bool {
        self@.len() == sample_count(self.spec_width(), self.spec_height())
    }

    /// The pixel at column `x` of row `y`.
    pub open spec fn pixel_at(&self, x: u32, y: u32) -> Color {
        pixel_in(self@, self.spec_width(), x, y)
    }

    /// Makes a buffer of `width` by `height` pixels from its samples, or
    /// returns `None` where `samples` does not hold four bytes for each pixel.
    pub fn from_raw(width: u32, height: u32, samples: Vec<u8>) -> (made: Option<PixelBuffer>)
        ensures
            made.is_some() == (samples@.len() == sample_count(width, height)),
            made matches Some(buffer) ==> {
                &&& buffer.well_formed()
                &&& buffer.spec_width() == width
                &&& buffer.spec_height() == height
                &&& buffer@ == samples@
            },
    {
        assert((width as u128) * (height as u128) <= 0xffff_ffff_ffff_ffff_ffffu128)
            by (nonlinear_arith)
            requires
                width <= 0xffff_ffffu32,
                height <= 0xffff_ffffu32,
        ;
        let pixels: u128 = (width as u128) * (height as u128);
        let wanted: u128 = pixels * 4;
        if samples.len() as u128 == wanted {
            Some(PixelBuffer { width, height, samples })
        } else {
            None
        }
    }

    /// The number of columns.
    pub fn width(&self) -> (w: u32)
        ensures
            w == self.spec_width(),
    {
        self.width
    }

    /// The number of rows.
    pub fn height(&self) -> (h: u32)
        ensures
            h == self.spec_height(),
    {
        self.height
    }

    /// The samples, row by row, four bytes for each pixel.
    pub fn samples(&self) -> (bytes: &Vec<u8>)
        ensures
            bytes@ == self@,
            self.well_formed(),
    {
        proof {
            use_type_invariant(self);
        }
        &self.samples
    }

    /// The pixel at column `x` of row `y`.
    pub fn pixel(&self, x: u32, y: u32) -> (c: Color)
        requires
            x < self.spec_width(),
            y < self.spec_height(),
        ensures
            c == self.pixel_at(x, y),
    {
        let total: usize = self.samples.len();
        proof {
            use_type_invariant(self);
            pixel_lies_inside(self.width, self.height, x, y);
            assert((y as int * self.width as int + x as int) * 4 + 3 < total);
        }
        let row: usize = y as usize * self.width as usize;
        let start: usize = (row + x as usize) * 4;
        Color {
            r: self.samples[start],
            g: self.samples[start + 1],
            b: self.samples[start + 2],
            a: self.samples[start + 3],
        }
    }

    /// The pixel at column `x` of row `y`, or `None` outside the image.
    pub fn get_pixel(&self, x: u32, y: u32) -> (found: Option<Color>)
        ensures
            found == (if x < self.spec_width() && y < self.spec_height() {
                Some(self.pixel_at(x, y))
            } else {
                None
            }),
    {
        if x < self.width && y < self.height {
            Some(self.pixel(x, y))
        } else {
            None
        }
    }

    /// Whether `rect`, in pixels, lies inside the image.
    pub fn contains(&self, rect: &Rect) -> (inside: bool)
        ensures
            inside == rect.lies_within(self.spec_width() as int, self.spec_height() as int),
    {
        rect.is_within(self.width, self.height)
    }
}

} // verus!
