//! Uncompressed images in packed pixel formats and in planar YUV.

use vstd::prelude::*;
use crate::common::{PixelFormat, Subsamp, spec_pixel_size};

verus! {

/// An image with packed pixels: `height` rows of `width` pixels, each row starting
/// `pitch` bytes after the previous one.
#[derive(Debug, Clone, PartialEq, Eq)]
pub struct Image {
    /// The pixel data.
    pub pixels: Vec<u8>,
    /// Width of the image in pixels (number of columns).
    pub width: usize,
    /// Size of one image row in bytes.
    pub pitch: usize,
    /// Height of the image in pixels (number of rows).
    pub height: usize,
    /// Format of the pixels.
    pub format: PixelFormat,
}

/// Byte length of the pixel data that `height` rows with the given `pitch`, each row holding
/// `row_len` bytes, reach into.
pub open spec fn spec_rows_extent(pitch: int, height: int, row_len: int) -> int {
    if height == 0 {
        0
    } else {
        pitch * (height - 1) + row_len
    }
}

/// `height` rows of `width` pixels in `format`, `pitch` bytes apart, fit in `len` bytes of
/// pixel data: each row holds its pixels, and the last row ends within the data.
pub open spec fn layout_fits(width: int, pitch: int, height: int, format: PixelFormat, len: int) -> bool {
    let row_len = width * spec_pixel_size(format);
    &&& pitch >= row_len
    &&& spec_rows_extent(pitch, height, row_len) <= len
}

impl Image {
    /// Number of bytes that one row of pixels takes.
    pub open spec fn row_len(self) -> int {
        self.width * spec_pixel_size(self.format)
    }

    /// The rows fit in the pixel data: each row holds its pixels, and the last row ends
    /// within the data.
    pub open spec fn fits(self) -> bool {
        layout_fits(
            self.width as int,
            self.pitch as int,
            self.height as int,
            self.format,
            self.pixels.len() as int,
        )
    }

    /// Tells whether the rows fit in the pixel data (see `fits`).
    pub fn is_valid(&self) -> (valid: bool)
        ensures
            valid == self.fits(),
    {
        let size = self.format.size();
        if self.width > usize::MAX / size {
            proof {
                assert(self.width * size > usize::MAX) by (nonlinear_arith)
                    requires
                        self.width > usize::MAX / size,
                        size >= 1,
                ;
            }
            return false;
        }
        let row_len = self.width * size;
        if self.pitch < row_len {
            return false;
        }
        if self.height == 0 {
            return true;
        }
        if row_len > self.pixels.len() {
            return false;
        }
        let rows = self.height - 1;
        if rows == 0 {
            proof {
                assert(self.pitch * (self.height - 1) == 0) by (nonlinear_arith)
                    requires
                        self.height == 1,
                ;
            }
            return true;
        }
        let room = self.pixels.len() - row_len;
        if self.pitch > room / rows {
            proof {
                assert(self.pitch * rows > room) by (nonlinear_arith)
                    requires
                        rows > 0,
                        self.pitch > room / rows,
                ;
            }
            return false;
        }
        proof {
            assert(self.pitch * rows <= room) by (nonlinear_arith)
                requires
                    rows > 0,
                    self.pitch <= room / rows,
            ;
        }
        true
    }
}

/// An image in planar YUV: a luminance plane and, unless the subsampling is grayscale,
/// two chrominance planes, each row padded to a multiple of `align` bytes.
#[derive(Debug, Clone, PartialEq, Eq)]
pub struct YuvImage {
    /// The data of all planes, one after the other.
    pub pixels: Vec<u8>,
    /// Width of the image in pixels.
    pub width: usize,
    /// Row alignment of each plane in bytes; a power of two.
    pub align: usize,
    /// Height of the image in pixels.
    pub height: usize,
    /// Chrominance subsampling.
    pub subsamp: Subsamp,
}

/// `n` is a power of two.
pub open spec fn is_power_of_two(n: int) -> bool
    decreases n,
{
    if n <= 0 {
        false
    } else if n == 1 {
        true
    } else {
        n % 2 == 0 && is_power_of_two(n / 2)
    }
}

/// Tells whether `n` is a power of two.
pub fn power_of_two(n: usize) -> (res: bool)
    ensures
        res == is_power_of_two(n as int),
{
    if n == 0 {
        return false;
    }
    let mut m: usize = n;
    while m != 1
        invariant
            m >= 1,
            is_power_of_two(n as int) == is_power_of_two(m as int),
        decreases m,
    {
        if m % 2 != 0 {
            return false;
        }
        m = m / 2;
    }
    true
}

/// Every byte that a decompression of an image of `width` by `height` pixels, no larger
/// than `image`, writes with `image`'s pitch and pixel format lies within `image`'s pixel
/// data: byte `byte` of row `row` is at offset `row * pitch + byte`.
pub proof fn lemma_scaled_rows_within(image: Image, width: int, height: int, row: int, byte: int)
    requires
        image.fits(),
        0 <= width <= image.width,
        0 <= height <= image.height,
        0 <= row < height,
        0 <= byte < width * spec_pixel_size(image.format),
    ensures
        0 <= row * image.pitch + byte < image.pixels.len(),
{
    let size = spec_pixel_size(image.format) as int;
    let pitch = image.pitch as int;
    let h = image.height as int;
    assert(byte < image.width * size) by (nonlinear_arith)
        requires
            byte < width * size,
            width <= image.width,
            size >= 0,
    ;
    assert(row * pitch <= (h - 1) * pitch) by (nonlinear_arith)
        requires
            0 <= row < height,
            height <= h,
            pitch >= 0,
    ;
    assert(0 <= row * pitch) by (nonlinear_arith)
        requires
            0 <= row,
            pitch >= 0,
    ;
}

/// In an image whose rows fit, the rows do not overlap: each row ends before the next one
/// starts, and the last one ends within the pixel data.
pub proof fn lemma_rows_disjoint(image: Image, row: int)
    requires
        image.fits(),
        0 <= row < image.height,
    ensures
        row * image.pitch + image.row_len() <= (row + 1) * image.pitch,
        row * image.pitch + image.row_len() <= image.pixels.len(),
{
    let pitch = image.pitch as int;
    assert((row + 1) * pitch == row * pitch + pitch) by (nonlinear_arith);
    assert(row * pitch <= (image.height - 1) * pitch) by (nonlinear_arith)
        requires
            0 <= row < image.height,
            pitch >= 0,
    ;
}

/// The powers of two are 1 and the doubles of powers of two: 0 and the odd numbers above 1
/// are none, and doubling a positive number neither makes nor unmakes one.
pub proof fn lemma_powers_of_two(n: int)
    ensures
        is_power_of_two(1),
        !is_power_of_two(0),
        n > 1 && n % 2 == 1 ==> !is_power_of_two(n),
        n > 0 ==> is_power_of_two(2 * n) == is_power_of_two(n),
{
    if n > 0 {
        assert((2 * n) % 2 == 0);
        assert((2 * n) / 2 == n);
    }
}

} // verus!
