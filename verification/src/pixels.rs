//! Decoded images: a grid of RGBA pixels, row by row from the top.

use vstd::prelude::*;
use crate::color::Color;
use crate::error::{ImageLoadError, ImageLoadErrorKind};

verus! {

/// A decoded image. Its bytes hold four channels per pixel (red, green,
/// blue, alpha), the rows from top to bottom and each row from left to
/// right.
pub struct PixelGrid {
    width: u32,
    height: u32,
    data: Vec<u8>,
}

/// The number of bytes that `width` by `height` pixels take.
pub open spec fn byte_count(width: u32, height: u32) -> int {
    4 * (width as int) * (height as int)
}

/// Whether `len` bytes are enough for a grid of `width` by `height` pixels.
pub open spec fn grid_fits(width: u32, height: u32, len: nat) -> bool {
    byte_count(width, height) <= len
}

impl PixelGrid {
    #[verifier::type_invariant]
    closed spec fn well_formed(&self) -> bool {
        self.data@.len() == byte_count(self.width, self.height)
    }

    /// The number of pixels in a row.
    pub closed spec fn spec_width(&self) -> u32 {
        self.width
    }

    /// The number of rows.
    pub closed spec fn spec_height(&self) -> u32 {
        self.height
    }

    /// The bytes of the grid.
    pub closed spec fn bytes(&self) -> Seq<u8> {
        self.data@
    }

    /// The colour of the pixel in column `x` of row `y`.
    pub open spec fn pixel(&self, x: int, y: int) -> Color
        recommends
            0 <= x < self.spec_width(),
            0 <= y < self.spec_height(),
    {
        let at = 4 * (y * (self.spec_width() as int) + x);
        Color {
            r: self.bytes()[at],
            g: self.bytes()[at + 1],
            b: self.bytes()[at + 2],
            a: self.bytes()[at + 3],
        }
    }

    /// Builds a grid over the first bytes of `data`, as many as the pixels
    /// take, or returns `None` (and drops `data`) where it is too short for
    /// `width` by `height` pixels.
    pub fn from_rgba(width: u32, height: u32, data: Vec<u8>) -> (r: Option<Self>)
        ensures
            r.is_some() == grid_fits(width, height, data@.len()),
            r.is_some() ==> {
                &&& r.unwrap().spec_width() == width
                &&& r.unwrap().spec_height() == height
                &&& r.unwrap().bytes() == data@.subrange(0, byte_count(width, height))
            },
    {
        assert(0 <= (width as int) * (height as int) <= 0xFFFF_FFFF * 0xFFFF_FFFF)
            by (nonlinear_arith)
            requires
                0 <= width <= 0xFFFF_FFFF,
                0 <= height <= 0xFFFF_FFFF,
        ;
        let pixels: u64 = (width as u64) * (height as u64);
        assert(4 * (width as int) * (height as int) == 4 * ((width as int) * (height as int)))
            by (nonlinear_arith);
        if pixels <= (data.len() as u64) / 4 {
            let mut data = data;
            data.truncate((4 * pixels) as usize);
            Some(Self { width, height, data })
        } else {
            None
        }
    }

    /// The bytes of the grid, all of them.
    pub fn as_bytes(&self) -> (r: &[u8])
        ensures
            r@ == self.bytes(),
            r@.len() == byte_count(self.spec_width(), self.spec_height()),
    {
        proof {
            use_type_invariant(self);
        }
        self.data.as_slice()
    }

    pub fn width(&self) -> (r: u32)
        ensures
            r == self.spec_width(),
    {
        self.width
    }

    pub fn height(&self) -> (r: u32)
        ensures
            r == self.spec_height(),
    {
        self.height
    }

    /// Reads one pixel. The position must lie inside the grid.
    pub fn get_pixel(&self, x: u32, y: u32) -> (c: Color)
        requires
            x < self.spec_width(),
            y < self.spec_height(),
        ensures
            c == self.pixel(x as int, y as int),
    {
        proof {
            use_type_invariant(self);
            lemma_cell_in_range(x as int, y as int, self.width as int, self.height as int);
        }
        let len: usize = self.data.len();
        assert(4 * (y * self.width + x) + 3 < len);
        let at: usize = 4 * ((y as usize) * (self.width as usize) + (x as usize));
        Color::new(self.data[at], self.data[at + 1], self.data[at + 2], self.data[at + 3])
    }
}

/// A cell of a grid of `w` columns and `h` rows has a place among the
/// `w * h` cells.
pub proof fn lemma_cell_in_range(x: int, y: int, w: int, h: int)
    requires
        0 <= x < w,
        0 <= y < h,
    ensures
        0 <= y * w + x < w * h,
        0 <= y * w <= y * w + x,
        4 * (y * w + x) + 3 < 4 * w * h,
{
    assert(y * w + w <= h * w) by (nonlinear_arith)
        requires
            0 <= y < h,
            0 <= w,
    ;
    assert(h * w == w * h) by (nonlinear_arith);
    assert(0 <= y * w) by (nonlinear_arith)
        requires
            0 <= y,
            0 <= w,
    ;
    assert(4 * (w * h) == 4 * w * h) by (nonlinear_arith);
}

#[verifier::external_type_specification]
#[verifier::external_body]
pub struct ExImageError(image::ImageError);

/// Decodes with `image::load_from_memory`, which guesses the format from
/// the first bytes, converts the outcome with `DynamicImage::to_rgba8`, and
/// takes the width, the height and the bytes out of it. Nothing is claimed
/// of what comes back.
#[verifier::external_body]
fn decode_rgba8(bytes: &[u8]) -> (r: Result<(u32, u32, Vec<u8>), image::ImageError>) {
    let decoded = image::load_from_memory(bytes)?;
    let rgba = decoded.to_rgba8();
    let (width, height) = rgba.dimensions();
    Ok((width, height, rgba.into_raw()))
}

/// The text of an `image::ImageError`, as its `Display` writes it. Nothing
/// is claimed of the text.
#[verifier::external_body]
fn image_error_text(error: &image::ImageError) -> (text: String) {
    error.to_string()
}

/// What becomes of a decoder's outcome: a width, a height and bytes become
/// the grid over them, or a decode error where the bytes are too few; a
/// failure becomes a decode error with its text.
pub open spec fn grid_outcome_matches(
    outcome: Result<(u32, u32, Vec<u8>), String>,
    r: Result<PixelGrid, ImageLoadError>,
) -> bool {
    match outcome {
        Ok(parts) => match r {
            Ok(grid) => {
                &&& grid_fits(parts.0, parts.1, parts.2@.len())
                &&& grid.spec_width() == parts.0
                &&& grid.spec_height() == parts.1
                &&& grid.bytes() == parts.2@.subrange(0, byte_count(parts.0, parts.1))
            },
            Err(error) => {
                &&& !grid_fits(parts.0, parts.1, parts.2@.len())
                &&& error matches ImageLoadError::DecodeError(text)
                &&& text@ == Seq::<char>::empty()
            },
        },
        Err(text) => r == Err::<PixelGrid, ImageLoadError>(ImageLoadError::DecodeError(text)),
    }
}

/// Makes a grid of what a decoder returned.
pub fn grid_from_decoded(outcome: Result<(u32, u32, Vec<u8>), String>) -> (r: Result<
    PixelGrid,
    ImageLoadError,
>)
    ensures
        grid_outcome_matches(outcome, r),
{
    match outcome {
        Ok(parts) => {
            let (width, height, data) = parts;
            match PixelGrid::from_rgba(width, height, data) {
                Some(grid) => Ok(grid),
                None => Err(ImageLoadError::DecodeError(String::new())),
            }
        },
        Err(text) => Err(ImageLoadError::DecodeError(text)),
    }
}

/// Decodes the bytes of an image file into a grid. Whatever the decoder
/// makes of the bytes, a failure is reported as a decode error.
pub fn decode_image(bytes: &[u8]) -> (r: Result<PixelGrid, ImageLoadError>)
    ensures
        r matches Err(e) ==> e.spec_kind() == ImageLoadErrorKind::Decode,
{
    match decode_rgba8(bytes) {
        Ok(parts) => grid_from_decoded(Ok(parts)),
        Err(error) => grid_from_decoded(Err(image_error_text(&error))),
    }
}

} // verus!
