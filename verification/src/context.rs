//! The front door's own state: which backend to start, the cache of loaded
//! images, and the software backend's size and images.

use vstd::prelude::*;
use crate::error::{ImageLoadError, ImageLoadErrorKind};
use crate::geometry::Size;
use crate::material::Image;
use crate::pixels::{decode_image, PixelGrid};
use crate::raster::{SoftwarePainter, CLEAR_PIXEL};
use crate::resource::{ResourceManager, ResourceNamespace};

verus! {

/// The two ways of rendering.
#[derive(Debug, Clone, Copy, PartialEq, Eq, Structural)]
pub enum Backend {
    Hardware,
    Software,
}

/// The backend that a configuration value asks for: the software one for
/// the word `software`, the hardware one for anything else.
pub open spec fn backend_for(config: Seq<char>) -> Backend {
    if config == "software"@ {
        Backend::Software
    } else {
        Backend::Hardware
    }
}

/// Picks the backend for a configuration value; an absent value is given
/// as the empty string.
pub fn select_backend(config: &str) -> (b: Backend)
    ensures
        b == backend_for(config@),
{
    let given: String = config.to_owned();
    let software: String = "software".to_owned();
    if given == software {
        Backend::Software
    } else {
        Backend::Hardware
    }
}

/// The image that a sequence of cache entries gives for `path`: that of the
/// last entry made for it.
pub open spec fn lookup(entries: Seq<(Seq<char>, Image)>, path: Seq<char>) -> Option<Image>
    decreases entries.len(),
{
    if entries.len() == 0 {
        None
    } else if entries.last().0 == path {
        Some(entries.last().1)
    } else {
        lookup(entries.drop_last(), path)
    }
}

struct CacheEntry {
    path: String,
    image: Image,
}

/// The images loaded so far, by path.
pub struct ImageCache {
    entries: Vec<CacheEntry>,
}

impl View for ImageCache {
    type V = Seq<(Seq<char>, Image)>;

    /// The entries in the order in which they were made.
    closed spec fn view(&self) -> Seq<(Seq<char>, Image)> {
        Seq::new(self.entries@.len(), |i: int| (self.entries@[i].path@, self.entries@[i].image))
    }
}

impl ImageCache {
    pub fn new() -> (r: Self)
        ensures
            r@ == Seq::<(Seq<char>, Image)>::empty(),
    {
        let r = Self { entries: Vec::new() };
        assert(r@ =~= Seq::<(Seq<char>, Image)>::empty());
        r
    }

    /// The image cached for `path`, if there is one.
    pub fn get(&self, path: &str) -> (r: Option<Image>)
        ensures
            r == lookup(self@, path@),
    {
        let wanted: String = path.to_owned();
        let mut i: usize = self.entries.len();
        assert(self@.take(i as int) =~= self@);
        while i > 0
            invariant
                i <= self.entries@.len(),
                wanted@ == path@,
                lookup(self@, path@) == lookup(self@.take(i as int), path@),
            decreases i,
        {
            i -= 1;
            assert(self@.take(i + 1).drop_last() =~= self@.take(i as int));
            assert(self@.take(i + 1).last() == self@[i as int]);
            if self.entries[i].path == wanted {
                return Some(self.entries[i].image);
            }
        }
        None
    }

    /// Caches `image` for `path`.
    pub fn insert(&mut self, path: &str, image: Image)
        ensures
            final(self)@ == old(self)@.push((path@, image)),
    {
        self.entries.push(CacheEntry { path: path.to_owned(), image });
        assert(self@ =~= old(self)@.push((path@, image)));
    }

    /// Takes the outcome of loading `path`: a loaded image is cached and
    /// handed on; a failure is handed on and the cache stays as it was.
    pub fn record(
        &mut self,
        path: &str,
        outcome: Result<Image, ImageLoadError>,
    ) -> (r: Result<Image, ImageLoadError>)
        ensures
            r == outcome,
            outcome matches Ok(image) ==> final(self)@ == old(self)@.push((path@, image)),
            outcome is Err ==> final(self)@ == old(self)@,
    {
        match outcome {
            Ok(image) => {
                self.insert(path, image);
                Ok(image)
            },
            Err(error) => Err(error),
        }
    }

    /// Loads the image at `path` through the cache: a cached image is
    /// returned and `load` is not called; else `load` is called once, and
    /// what it returns is recorded.
    pub fn load_with<F: FnOnce(&str) -> Result<Image, ImageLoadError>>(
        &mut self,
        path: &str,
        load: F,
    ) -> (r: Result<Image, ImageLoadError>)
        requires
            lookup(old(self)@, path@) is None ==> load.requires((path,)),
        ensures
            match lookup(old(self)@, path@) {
                Some(image) => r == Ok::<Image, ImageLoadError>(image) && final(self)@ == old(self)@,
                None => load.ensures((path,), r) && final(self)@ == (match r {
                    Ok(image) => old(self)@.push((path@, image)),
                    Err(_) => old(self)@,
                }),
            },
    {
        match self.get(path) {
            Some(image) => Ok(image),
            None => {
                let outcome = load(path);
                self.record(path, outcome)
            },
        }
    }
}

/// Once an image was cached for a path, that path gives this image: a
/// second load of the path finds it and loads nothing.
pub proof fn lemma_cached_path_is_found(
    entries: Seq<(Seq<char>, Image)>,
    path: Seq<char>,
    image: Image,
)
    ensures
        lookup(entries.push((path, image)), path) == Some(image),
{
    assert(entries.push((path, image)).last() == (path, image));
}

/// Caching an image for one path changes nothing for any other path.
pub proof fn lemma_other_paths_keep(
    entries: Seq<(Seq<char>, Image)>,
    path: Seq<char>,
    image: Image,
    other: Seq<char>,
)
    requires
        other != path,
    ensures
        lookup(entries.push((path, image)), other) == lookup(entries, other),
{
    assert(entries.push((path, image)).last() == (path, image));
    assert(entries.push((path, image)).drop_last() =~= entries);
}

/// The size that a backend has after it was asked to take `wanted`: a size
/// with a zero side is ignored.
pub open spec fn resized(current: Size, wanted: Size) -> Size {
    if wanted.spec_is_empty() {
        current
    } else {
        wanted
    }
}

/// The software backend: the size of its surface in physical pixels and
/// the decoded images that it owns.
pub struct SoftwareContext {
    size: Size,
    resources: ResourceManager<PixelGrid>,
}

impl SoftwareContext {
    /// The size of the next frame.
    pub closed spec fn spec_size(&self) -> Size {
        self.size
    }

    /// The store of decoded images.
    pub closed spec fn images(&self) -> ResourceManager<PixelGrid> {
        self.resources
    }

    /// The store of images is in order. `new` establishes this and every
    /// method keeps it.
    pub open spec fn wf(&self) -> bool {
        self.images().wf()
    }

    /// A backend for a surface of `size` pixels, with no image yet.
    pub fn new(size: Size) -> (r: Self)
        ensures
            r.wf(),
            r.spec_size() == size,
            r.images()@ == Seq::<PixelGrid>::empty(),
            r.images().spec_namespace() == ResourceNamespace::Image,
    {
        Self { size, resources: ResourceManager::new(ResourceNamespace::Image) }
    }

    pub fn size(&self) -> (r: Size)
        ensures
            r == self.spec_size(),
    {
        self.size
    }

    /// Takes the window's new size for the frames to come.
    pub fn resize(&mut self, size: Size)
        ensures
            final(self).wf() == old(self).wf(),
            final(self).spec_size() == resized(old(self).spec_size(), size),
            final(self).images() == old(self).images(),
    {
        if !size.is_empty() {
            self.size = size;
        }
    }

    /// Takes a decoded image into the store and returns its handle, which
    /// did not resolve before and now stands for `grid`.
    pub fn store_image(&mut self, grid: PixelGrid) -> (image: Image)
        requires
            old(self).wf(),
        ensures
            final(self).wf(),
            image.id == old(self).images().next_id(),
            image.size == (Size { width: grid.spec_width(), height: grid.spec_height() }),
            final(self).images()@ == old(self).images()@.push(grid),
            final(self).images().spec_namespace() == old(self).images().spec_namespace(),
            final(self).images().resolves(image.id),
            final(self).images().value_of(image.id) == grid,
            !old(self).images().resolves(image.id),
            final(self).spec_size() == old(self).spec_size(),
    {
        let size = Size::new(grid.width(), grid.height());
        let id = self.resources.add(grid);
        Image::new(size, id)
    }

    /// Decodes the bytes of an image file and stores the outcome. A failure
    /// is a decode error and leaves the store as it was.
    pub fn load_image(&mut self, bytes: &[u8]) -> (r: Result<Image, ImageLoadError>)
        requires
            old(self).wf(),
        ensures
            final(self).wf(),
            final(self).spec_size() == old(self).spec_size(),
            final(self).images().spec_namespace() == old(self).images().spec_namespace(),
            match r {
                Ok(image) => {
                    &&& image.id == old(self).images().next_id()
                    &&& final(self).images().resolves(image.id)
                    &&& final(self).images()@.len() == old(self).images()@.len() + 1
                    &&& final(self).images()@.drop_last() == old(self).images()@
                    &&& image.size == (Size {
                        width: final(self).images().value_of(image.id).spec_width(),
                        height: final(self).images().value_of(image.id).spec_height(),
                    })
                },
                Err(error) => {
                    &&& error.spec_kind() == ImageLoadErrorKind::Decode
                    &&& final(self).images() == old(self).images()
                },
            },
    {
        match decode_image(bytes) {
            Ok(grid) => {
                let image = self.store_image(grid);
                assert(self.images()@.drop_last() =~= old(self).images()@);
                Ok(image)
            },
            Err(error) => Err(error),
        }
    }

    /// Starts a frame of the current size: every pixel cleared, and the
    /// images of this backend at hand.
    pub fn begin_frame(&self) -> (painter: SoftwarePainter<'_>)
        requires
            self.wf(),
            self.spec_size().spec_area() <= usize::MAX,
        ensures
            painter.wf(),
            painter.spec_size() == self.spec_size(),
            painter.spec_images() == self.images(),
            forall|i: int| 0 <= i < painter@.len() ==> painter@[i] == CLEAR_PIXEL,
    {
        SoftwarePainter::new(self.size, &self.resources)
    }
}

/// After a resize to a size without a zero side, the next frame has that
/// size, whatever the size was before.
pub proof fn lemma_resize_sets_frame_size(current: Size, wanted: Size)
    requires
        !wanted.spec_is_empty(),
    ensures
        resized(current, wanted) == wanted,
{
}

} // verus!
