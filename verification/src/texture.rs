//! What the hardware backend uploads: the bytes of a decoded image with
//! the bottom row first.

use vstd::prelude::*;
use crate::pixels::{byte_count, PixelGrid};

verus! {

/// The rows of `bytes`, each of `row` bytes, in the opposite order.
pub open spec fn rows_reversed(bytes: Seq<u8>, row: int) -> Seq<u8> {
    Seq::new(
        bytes.len(),
        |i: int| bytes[(bytes.len() as int / row - 1 - i / row) * row + i % row],
    )
}

/// Reverses the order of the rows with
/// `glium::texture::RawImage2d::from_raw_rgba_reversed` and takes the bytes
/// out of what it returns. That function cuts the bytes into pieces of four
/// times the width, and chains the pieces from the last to the first. This
/// is stated for whole rows only, and for a width that is not zero, for
/// which alone the pieces are rows.
#[verifier::external_body]
fn flip_rgba_rows(data: &[u8], width: u32, height: u32) -> (r: Vec<u8>)
    requires
        width > 0,
        4 * width <= usize::MAX,
        data@.len() == byte_count(width, height),
    ensures
        r@ == rows_reversed(data@, 4 * width),
{
    glium::texture::RawImage2d::from_raw_rgba_reversed(data, (width, height)).data.into_owned()
}

impl PixelGrid {
    /// The bytes of the grid as a texture takes them: row by row from the
    /// bottom, each row from left to right.
    pub fn texture_rows(&self) -> (r: Vec<u8>)
        ensures
            r@ == rows_reversed(self.bytes(), 4 * self.spec_width()),
    {
        let width: u32 = self.width();
        let height: u32 = self.height();
        let bytes: &[u8] = self.as_bytes();
        if bytes.len() == 0 {
            let r: Vec<u8> = Vec::new();
            assert(r@ =~= rows_reversed(self.bytes(), 4 * self.spec_width()));
            r
        } else {
            assert(width > 0 && 4 * width <= bytes@.len()) by (nonlinear_arith)
                requires
                    bytes@.len() == 4 * (width as int) * (height as int),
                    bytes@.len() > 0,
            ;
            flip_rgba_rows(bytes, width, height)
        }
    }
}

} // verus!
