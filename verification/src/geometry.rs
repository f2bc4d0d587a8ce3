//! Sizes and rectangles in whole pixels.

use vstd::prelude::*;

verus! {

/// A width and a height, in pixels.
#[derive(Debug, Clone, Copy, PartialEq, Eq, Structural)]
pub struct Size {
    pub width: u32,
    pub height: u32,
}

impl Size {
    #[must_use]
    pub fn new(width: u32, height: u32) -> (s: Self)
        ensures
            s == (Size { width, height }),
    {
        Self { width, height }
    }

    /// The number of pixels of a frame of this size.
    pub open spec fn spec_area(&self) -> int {
        self.width * self.height
    }

    pub fn area(&self) -> (r: u64)
        ensures
            r == self.spec_area(),
    {
        assert(0 <= self.width * self.height <= 0xFFFF_FFFF * 0xFFFF_FFFF) by (nonlinear_arith)
            requires
                0 <= self.width <= 0xFFFF_FFFF,
                0 <= self.height <= 0xFFFF_FFFF,
        ;
        (self.width as u64) * (self.height as u64)
    }

    /// Whether either side is zero.
    pub open spec fn spec_is_empty(&self) -> bool {
        self.width == 0 || self.height == 0
    }

    pub fn is_empty(&self) -> (r: bool)
        ensures
            r == self.spec_is_empty(),
    {
        self.width == 0 || self.height == 0
    }
}

/// A rectangle in physical pixels as rounding left it: the corner may lie
/// anywhere, and the sides may be zero or negative.
#[derive(Debug, Clone, Copy, PartialEq, Eq, Structural)]
pub struct PixelRect {
    pub x: i64,
    pub y: i64,
    pub width: i64,
    pub height: i64,
}

impl PixelRect {
    #[must_use]
    pub fn new(x: i64, y: i64, width: i64, height: i64) -> (r: Self)
        ensures
            r == (PixelRect { x, y, width, height }),
    {
        Self { x, y, width, height }
    }
}

/// The part of a rectangle that is painted: the columns from `min_x` up to
/// but without `max_x`, and the rows from `min_y` up to but without `max_y`.
/// `span` is the rectangle's width after clamping, by which image sampling
/// divides.
#[derive(Debug, Clone, Copy, PartialEq, Eq, Structural)]
pub struct Region {
    pub min_x: usize,
    pub min_y: usize,
    pub max_x: usize,
    pub max_y: usize,
    pub span: usize,
}

impl Region {
    /// Whether the pixel in column `x` of row `y` belongs to the region.
    pub open spec fn contains(&self, x: int, y: int) -> bool {
        self.min_x <= x < self.max_x && self.min_y <= y < self.max_y
    }

    /// Whether the region lies inside a frame of `width` by `height` pixels.
    pub open spec fn fits(&self, width: int, height: int) -> bool {
        &&& self.min_x <= self.max_x <= width
        &&& self.min_y <= self.max_y <= height
        &&& self.max_x - self.min_x <= self.span
    }
}

/// The larger of two integers.
pub open spec fn larger(a: int, b: int) -> int {
    if a >= b {
        a
    } else {
        b
    }
}

/// The smaller of two integers.
pub open spec fn smaller(a: int, b: int) -> int {
    if a <= b {
        a
    } else {
        b
    }
}

/// The side of a rectangle after clamping: not negative, and at most one
/// less than the frame's side.
pub open spec fn clamped_side(side: int, frame: int) -> int {
    smaller(larger(side, 0), larger(frame - 1, 0))
}

/// Where a run that starts at `start` with side `side` begins inside a frame
/// of side `frame`: at the start moved up to zero, and no further than the
/// frame's end.
pub open spec fn run_start(start: int, frame: int) -> int {
    smaller(larger(start, 0), frame)
}

/// Where that run ends: its clamped side after its start, cut at the
/// frame's end.
pub open spec fn run_end(start: int, side: int, frame: int) -> int {
    smaller(larger(start, 0) + clamped_side(side, frame), frame)
}

/// The region of `rect` that is painted in a frame of `width` by `height`
/// pixels. The corner is moved up to zero where it is negative, without
/// shortening the sides; each side is clamped; and what then still reaches
/// beyond the frame is cut off.
pub open spec fn clip(rect: PixelRect, width: u32, height: u32) -> Region {
    Region {
        min_x: run_start(rect.x as int, width as int) as usize,
        min_y: run_start(rect.y as int, height as int) as usize,
        max_x: run_end(rect.x as int, rect.width as int, width as int) as usize,
        max_y: run_end(rect.y as int, rect.height as int, height as int) as usize,
        span: clamped_side(rect.width as int, width as int) as usize,
    }
}

/// Whatever the rectangle, its clipped region lies inside the frame.
pub proof fn lemma_clip_fits(rect: PixelRect, width: u32, height: u32)
    ensures
        clip(rect, width, height).fits(width as int, height as int),
{
}

/// Computes the start, the end and the clamped side of one axis.
fn clip_axis(start: i64, side: i64, frame: u32) -> (r: (usize, usize, usize))
    ensures
        r.0 == run_start(start as int, frame as int),
        r.1 == run_end(start as int, side as int, frame as int),
        r.2 == clamped_side(side as int, frame as int),
        r.0 <= r.1 <= frame,
        r.1 - r.0 <= r.2,
{
    let limit: u32 = if frame == 0 {
        0
    } else {
        frame - 1
    };
    let clamped: u32 = if side <= 0 {
        0
    } else if side >= limit as i64 {
        limit
    } else {
        side as u32
    };
    if start >= frame as i64 {
        (frame as usize, frame as usize, clamped as usize)
    } else {
        let first: u32 = if start < 0 {
            0
        } else {
            start as u32
        };
        let room: u32 = frame - first;
        let last: u32 = if clamped >= room {
            frame
        } else {
            first + clamped
        };
        (first as usize, last as usize, clamped as usize)
    }
}

/// Clips `rect` to a frame of `width` by `height` pixels.
pub fn clip_rect(rect: PixelRect, width: u32, height: u32) -> (r: Region)
    ensures
        r == clip(rect, width, height),
        r.fits(width as int, height as int),
{
    let (min_x, max_x, span) = clip_axis(rect.x, rect.width, width);
    let (min_y, max_y, _rows) = clip_axis(rect.y, rect.height, height);
    Region { min_x, min_y, max_x, max_y, span }
}

} // verus!
