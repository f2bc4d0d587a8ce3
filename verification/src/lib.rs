//! A small 2D drawing surface: colours and materials, a handle-based resource
//! store, image decoding into pixel grids, and a software rasteriser that
//! paints clipped rectangles into a frame buffer.

pub mod color;
pub mod context;
pub mod error;
pub mod geometry;
pub mod material;
pub mod pixels;
pub mod raster;
pub mod resource;
pub mod texture;

pub use color::Color;
pub use context::{Backend, ImageCache, SoftwareContext};
pub use error::{ImageLoadError, ImageLoadErrorKind};
pub use geometry::{PixelRect, Region, Size};
pub use material::{Image, Material};
pub use pixels::PixelGrid;
pub use raster::SoftwarePainter;
pub use resource::{ResourceId, ResourceManager, ResourceNamespace};
