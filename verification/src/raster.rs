//! The software rasteriser: a frame of packed pixels and the two ways of
//! filling a clipped rectangle of it.
//!
//! The frame is a sequence of `width * height` pixels, row by row from the
//! top: the pixel at position `i` lies in column `i % width` of row
//! `i / width`.

use vstd::prelude::*;
use vstd::arithmetic::div_mod::{lemma_fundamental_div_mod, lemma_fundamental_div_mod_converse};
use crate::color::Color;
use crate::geometry::{clip, clip_rect, PixelRect, Region, Size};
use crate::material::{Image, Material};
use crate::pixels::{lemma_cell_in_range, PixelGrid};
use crate::resource::ResourceManager;

verus! {

/// The pixel of a cleared frame: opaque black.
pub const CLEAR_PIXEL: u32 = 0xFF00_0000;

/// A frame after `region` was filled with the pixel `packed`.
pub open spec fn fill_color(before: Seq<u32>, width: int, region: Region, packed: u32) -> Seq<
    u32,
> {
    Seq::new(
        before.len(),
        |i: int|
            if region.contains(i % width, i / width) {
                packed
            } else {
                before[i]
            },
    )
}

/// The column of `grid` that the frame's column `x` is taken from.
pub open spec fn source_column(x: int, region: Region, grid: PixelGrid) -> int {
    (x - region.min_x) * (grid.spec_width() as int) / (region.span as int)
}

/// The row of `grid` that the frame's row `y` is taken from. The offset is
/// divided by the region's span, as the column's is.
pub open spec fn source_row(y: int, region: Region, grid: PixelGrid) -> int {
    (y - region.min_y) * (grid.spec_height() as int) / (region.span as int)
}

/// The pixel in column `x` of row `y` after `region` was filled from `grid`:
/// inside the region the nearest pixel of the grid, packed; `before` outside
/// it and where the grid has no such row or column.
pub open spec fn sampled(before: u32, x: int, y: int, region: Region, grid: PixelGrid) -> u32 {
    let u = source_column(x, region, grid);
    let v = source_row(y, region, grid);
    if region.contains(x, y) && u < grid.spec_width() && v < grid.spec_height() {
        grid.pixel(u, v).spec_as_bgra()
    } else {
        before
    }
}

/// A frame after `region` was filled from `grid`.
pub open spec fn fill_image(before: Seq<u32>, width: int, region: Region, grid: PixelGrid) -> Seq<
    u32,
> {
    Seq::new(before.len(), |i: int| sampled(before[i], i % width, i / width, region, grid))
}

/// In a frame of `w` columns, only position `y * w + x` lies in column `x`
/// of row `y`.
proof fn lemma_cell_unique(w: int, x: int, y: int)
    requires
        0 <= x < w,
        0 <= y,
    ensures
        (y * w + x) / w == y,
        (y * w + x) % w == x,
        forall|i: int| #[trigger] (i / w) == y && i % w == x ==> i == y * w + x,
{
    lemma_fundamental_div_mod_converse(y * w + x, w, y, x);
    assert forall|i: int| #[trigger] (i / w) == y && i % w == x implies i == y * w + x by {
        lemma_fundamental_div_mod(i, w);
        assert(w * y == y * w) by (nonlinear_arith);
    }
}

/// Paints into one frame. It owns the frame's pixels until `finish` hands
/// them out, and reads images from the store it was made with.
pub struct SoftwarePainter<'a> {
    size: Size,
    buffer: Vec<u32>,
    images: &'a ResourceManager<PixelGrid>,
}

impl<'a> View for SoftwarePainter<'a> {
    type V = Seq<u32>;

    /// The frame's pixels.
    closed spec fn view(&self) -> Seq<u32> {
        self.buffer@
    }
}

impl<'a> SoftwarePainter<'a> {
    /// The frame's size in physical pixels.
    pub closed spec fn spec_size(&self) -> Size {
        self.size
    }

    /// The store that images are read from.
    pub closed spec fn spec_images(&self) -> ResourceManager<PixelGrid> {
        *self.images
    }

    /// The frame holds one pixel for each position, and the store of images
    /// is in order.
    pub open spec fn wf(&self) -> bool {
        self@.len() == self.spec_size().spec_area() && self.spec_images().wf()
    }

    /// Whether `brush` can be painted: an image must be one of the store.
    pub open spec fn paintable(&self, brush: Material) -> bool {
        match brush {
            Material::Color(_) => true,
            Material::Image(image) => self.spec_images().resolves(image.id),
        }
    }

    /// The frame after `rect` was painted with `brush`.
    pub open spec fn painted(&self, rect: PixelRect, brush: Material) -> Seq<u32> {
        let size = self.spec_size();
        let region = clip(rect, size.width, size.height);
        match brush {
            Material::Color(color) => fill_color(
                self@,
                size.width as int,
                region,
                color.spec_as_bgra(),
            ),
            Material::Image(image) => fill_image(
                self@,
                size.width as int,
                region,
                self.spec_images().value_of(image.id),
            ),
        }
    }

    /// Starts a frame of `size` physical pixels, every one of them cleared.
    pub fn new(size: Size, images: &'a ResourceManager<PixelGrid>) -> (r: Self)
        requires
            size.spec_area() <= usize::MAX,
            images.wf(),
        ensures
            r.wf(),
            r.spec_size() == size,
            r.spec_images() == *images,
            forall|i: int| 0 <= i < r@.len() ==> r@[i] == CLEAR_PIXEL,
    {
        let count: usize = (size.width as usize) * (size.height as usize);
        let mut buffer: Vec<u32> = Vec::new();
        let mut filled: usize = 0;
        while filled < count
            invariant
                filled <= count,
                buffer@.len() == filled,
                forall|i: int| 0 <= i < filled ==> buffer@[i] == CLEAR_PIXEL,
            decreases count - filled,
        {
            buffer.push(CLEAR_PIXEL);
            filled += 1;
        }
        Self { size, buffer, images }
    }

    /// The frame's size in physical pixels.
    pub fn size(&self) -> (r: Size)
        ensures
            r == self.spec_size(),
    {
        self.size
    }

    /// Whether `brush` can be painted: an image must be one of the store.
    pub fn can_paint(&self, brush: Material) -> (r: bool)
        ensures
            r == self.paintable(brush),
    {
        match brush {
            Material::Color(_) => true,
            Material::Image(image) => self.images.contains(image.id),
        }
    }

    /// Ends the frame and hands out its pixels, to be shown.
    pub fn finish(self) -> (pixels: Vec<u32>)
        ensures
            pixels@ == self@,
    {
        self.buffer
    }

    /// Fills the columns from `min_x` up to `max_x` of row `y`.
    fn fill_row(&mut self, y: usize, min_x: usize, max_x: usize, packed: u32)
        requires
            old(self).wf(),
            y < old(self).spec_size().height,
            min_x <= max_x <= old(self).spec_size().width,
        ensures
            final(self).wf(),
            final(self).spec_size() == old(self).spec_size(),
            final(self).spec_images() == old(self).spec_images(),
            forall|i: int|
                0 <= i < old(self)@.len() ==> #[trigger] final(self)@[i] == ({
                    let width = old(self).spec_size().width as int;
                    if i / width == y && min_x <= i % width < max_x {
                        packed
                    } else {
                        old(self)@[i]
                    }
                }),
    {
        let w: usize = self.size.width as usize;
        proof {
            if w > 0 {
                lemma_cell_in_range(0, y as int, w as int, self.size.height as int);
            }
        }
        let total: usize = self.buffer.len();
        let mut x: usize = min_x;
        while x < max_x
            invariant
                total == self.buffer@.len(),
                min_x <= x <= max_x <= w,
                w == self.size.width,
                y < self.size.height,
                self.size == old(self).size,
                self.images == old(self).images,
                self.buffer@.len() == old(self).buffer@.len(),
                self.buffer@.len() == self.size.width * self.size.height,
                forall|i: int|
                    0 <= i < self.buffer@.len() ==> #[trigger] self.buffer@[i] == if i / (w as int)
                        == y && min_x <= i % (w as int) < x {
                        packed
                    } else {
                        old(self).buffer@[i]
                    },
            decreases max_x - x,
        {
            proof {
                lemma_cell_in_range(x as int, y as int, w as int, self.size.height as int);
                lemma_cell_unique(w as int, x as int, y as int);
            }
            let at: usize = y * w + x;
            self.buffer.set(at, packed);
            x += 1;
        }
    }

    /// Fills `region` with `color`, row by row.
    pub fn paint_rect_with_color(&mut self, region: Region, color: Color)
        requires
            old(self).wf(),
            region.fits(old(self).spec_size().width as int, old(self).spec_size().height as int),
        ensures
            final(self).wf(),
            final(self).spec_size() == old(self).spec_size(),
            final(self).spec_images() == old(self).spec_images(),
            final(self)@ == fill_color(
                old(self)@,
                old(self).spec_size().width as int,
                region,
                color.spec_as_bgra(),
            ),
    {
        let packed: u32 = color.as_bgra();
        let ghost w: int = self.size.width as int;
        let mut y: usize = region.min_y;
        while y < region.max_y
            invariant
                region.min_y <= y <= region.max_y <= self.size.height,
                region.min_x <= region.max_x <= self.size.width,
                w == self.size.width,
                self.wf(),
                self.size == old(self).size,
                self.images == old(self).images,
                self.buffer@.len() == old(self).buffer@.len(),
                forall|i: int|
                    0 <= i < self.buffer@.len() ==> #[trigger] self.buffer@[i] == if region.contains(
                        i % w,
                        i / w,
                    ) && i / w < y {
                        packed
                    } else {
                        old(self).buffer@[i]
                    },
            decreases region.max_y - y,
        {
            self.fill_row(y, region.min_x, region.max_x, packed);
            y += 1;
        }
        assert(self@ =~= fill_color(old(self)@, w, region, packed));
    }

    /// Fills the columns of `region` in row `y` from `grid`.
    fn sample_row(&mut self, y: usize, region: Region, grid: &PixelGrid)
        requires
            old(self).wf(),
            region.fits(old(self).spec_size().width as int, old(self).spec_size().height as int),
            region.min_y <= y < region.max_y,
        ensures
            final(self).wf(),
            final(self).spec_size() == old(self).spec_size(),
            final(self).spec_images() == old(self).spec_images(),
            forall|i: int|
                0 <= i < old(self)@.len() ==> #[trigger] final(self)@[i] == ({
                    let width = old(self).spec_size().width as int;
                    if i / width == y {
                        sampled(old(self)@[i], i % width, y as int, region, *grid)
                    } else {
                        old(self)@[i]
                    }
                }),
    {
        let w: usize = self.size.width as usize;
        let columns: u64 = grid.width() as u64;
        let rows: u64 = grid.height() as u64;
        let span: u64 = region.span as u64;
        let dy: u64 = (y - region.min_y) as u64;
        assert(0 <= dy * rows <= 0xFFFF_FFFF * 0xFFFF_FFFF) by (nonlinear_arith)
            requires
                0 <= dy <= 0xFFFF_FFFF,
                0 <= rows <= 0xFFFF_FFFF,
        ;
        proof {
            if w > 0 {
                lemma_cell_in_range(0, y as int, w as int, self.size.height as int);
            }
        }
        let total: usize = self.buffer.len();
        let mut x: usize = region.min_x;
        while x < region.max_x
            invariant
                total == self.buffer@.len(),
                region.min_x <= x <= region.max_x <= w,
                region.max_x - region.min_x <= region.span,
                region.min_y <= y < region.max_y <= self.size.height,
                w == self.size.width,
                columns == grid.spec_width(),
                rows == grid.spec_height(),
                span == region.span,
                dy == y - region.min_y,
                dy * rows <= u64::MAX,
                self.size == old(self).size,
                self.images == old(self).images,
                self.buffer@.len() == old(self).buffer@.len(),
                self.buffer@.len() == self.size.width * self.size.height,
                forall|i: int|
                    0 <= i < self.buffer@.len() ==> #[trigger] self.buffer@[i] == if i / (w as int)
                        == y && i % (w as int) < x {
                        sampled(old(self).buffer@[i], i % (w as int), y as int, region, *grid)
                    } else {
                        old(self).buffer@[i]
                    },
            decreases region.max_x - x,
        {
            proof {
                lemma_cell_in_range(x as int, y as int, w as int, self.size.height as int);
                lemma_cell_unique(w as int, x as int, y as int);
            }
            let at: usize = y * w + x;
            let dx: u64 = (x - region.min_x) as u64;
            assert(0 <= dx * columns <= 0xFFFF_FFFF * 0xFFFF_FFFF) by (nonlinear_arith)
                requires
                    0 <= dx <= 0xFFFF_FFFF,
                    0 <= columns <= 0xFFFF_FFFF,
            ;
            let u: u64 = dx * columns / span;
            let v: u64 = dy * rows / span;
            if u < columns && v < rows {
                let pixel: Color = grid.get_pixel(u as u32, v as u32);
                self.buffer.set(at, pixel.as_bgra());
            }
            x += 1;
        }
    }

    /// Fills `region` from the image behind `image`: each pixel takes the
    /// nearest pixel of the image, found by scaling its offset in the
    /// region by the image's size over the region's span.
    pub fn paint_rect_with_image(&mut self, region: Region, image: Image)
        requires
            old(self).wf(),
            region.fits(old(self).spec_size().width as int, old(self).spec_size().height as int),
            old(self).spec_images().resolves(image.id),
        ensures
            final(self).wf(),
            final(self).spec_size() == old(self).spec_size(),
            final(self).spec_images() == old(self).spec_images(),
            final(self)@ == fill_image(
                old(self)@,
                old(self).spec_size().width as int,
                region,
                old(self).spec_images().value_of(image.id),
            ),
    {
        let images: &'a ResourceManager<PixelGrid> = self.images;
        let found: Option<&PixelGrid> = images.get(image.id);
        let grid: &PixelGrid = found.unwrap();
        let ghost w: int = self.size.width as int;
        let mut y: usize = region.min_y;
        while y < region.max_y
            invariant
                region.min_y <= y <= region.max_y,
                region.fits(self.size.width as int, self.size.height as int),
                w == self.size.width,
                self.wf(),
                self.size == old(self).size,
                self.images == old(self).images,
                self.buffer@.len() == old(self).buffer@.len(),
                forall|i: int|
                    0 <= i < self.buffer@.len() ==> #[trigger] self.buffer@[i] == if i / w < y {
                        sampled(old(self).buffer@[i], i % w, i / w, region, *grid)
                    } else {
                        old(self).buffer@[i]
                    },
            decreases region.max_y - y,
        {
            self.sample_row(y, region, grid);
            y += 1;
        }
        assert(self@ =~= fill_image(old(self)@, w, region, *grid));
    }

    /// Paints `rect` with `brush`. The rectangle may lie anywhere: it is
    /// clipped to the frame, and no pixel outside the clipped region
    /// changes.
    pub fn paint_filled_rect(&mut self, rect: PixelRect, brush: Material)
        requires
            old(self).wf(),
            old(self).paintable(brush),
        ensures
            final(self).wf(),
            final(self).spec_size() == old(self).spec_size(),
            final(self).spec_images() == old(self).spec_images(),
            final(self)@ == old(self).painted(rect, brush),
    {
        let region: Region = clip_rect(rect, self.size.width, self.size.height);
        match brush {
            Material::Color(color) => self.paint_rect_with_color(region, color),
            Material::Image(image) => self.paint_rect_with_image(region, image),
        }
    }
}

/// Painting never reaches outside the frame: whatever the rectangle and the
/// fill, the frame keeps its length, and every pixel outside the clipped
/// region keeps its value.
pub proof fn lemma_paint_stays_in_region(painter: SoftwarePainter, rect: PixelRect, brush: Material)
    ensures
        painter.painted(rect, brush).len() == painter@.len(),
        forall|i: int|
            0 <= i < painter@.len() && !clip(
                rect,
                painter.spec_size().width,
                painter.spec_size().height,
            ).contains(i % (painter.spec_size().width as int), i / (painter.spec_size().width as int))
                ==> #[trigger] painter.painted(rect, brush)[i] == painter@[i],
{
}

/// Inside a region that is no wider than its span, every column finds a
/// column of the image, provided the image has one: only its rows can run
/// out.
pub proof fn lemma_source_column_in_grid(x: int, region: Region, grid: PixelGrid)
    requires
        region.min_x <= x < region.max_x,
        region.max_x - region.min_x <= region.span,
        grid.spec_width() > 0,
    ensures
        0 <= source_column(x, region, grid) < grid.spec_width(),
{
    let dx = x - region.min_x;
    let columns = grid.spec_width() as int;
    let span = region.span as int;
    assert(0 <= dx * columns / span < columns) by (nonlinear_arith)
        requires
            0 <= dx < span,
            0 < columns,
    ;
}

} // verus!
