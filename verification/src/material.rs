//! What a rectangle is filled with: a colour or an image.

use vstd::prelude::*;
use crate::color::Color;
use crate::geometry::Size;
use crate::resource::ResourceId;

verus! {

/// A handle to a loaded image: its size in pixels and the id under which
/// the backend keeps its pixels. Two images are the same resource exactly
/// when their ids are equal.
#[derive(Debug, Clone, Copy, PartialEq, Eq, Structural)]
pub struct Image {
    pub size: Size,
    pub id: ResourceId,
}

impl Image {
    #[must_use]
    pub fn new(size: Size, id: ResourceId) -> (r: Self)
        ensures
            r == (Image { size, id }),
    {
        Self { size, id }
    }

    #[must_use]
    pub fn size(&self) -> (r: Size)
        ensures
            r == self.size,
    {
        self.size
    }

    #[must_use]
    pub fn id(&self) -> (r: ResourceId)
        ensures
            r == self.id,
    {
        self.id
    }
}

/// The fill of a rectangle.
#[derive(Debug, Clone, Copy, PartialEq, Eq, Structural)]
pub enum Material {
    Color(Color),
    Image(Image),
}

impl From<Color> for Material {
    fn from(value: Color) -> (r: Self) {
        Material::Color(value)
    }
}

impl vstd::std_specs::convert::FromSpecImpl<Color> for Material {
    open spec fn obeys_from_spec() -> bool {
        true
    }

    open spec fn from_spec(value: Color) -> Material {
        Material::Color(value)
    }
}

impl From<Image> for Material {
    fn from(value: Image) -> (r: Self) {
        Material::Image(value)
    }
}

impl vstd::std_specs::convert::FromSpecImpl<Image> for Material {
    open spec fn obeys_from_spec() -> bool {
        true
    }

    open spec fn from_spec(value: Image) -> Material {
        Material::Image(value)
    }
}

} // verus!
