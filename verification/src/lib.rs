//! A verified facade over a raster-image value type.
//!
//! A decoded image is modelled as a rectangle of 4-channel RGBA pixels.
//! Every transformation returns a new owned image value; the two sanctioned
//! in-place mutations are `invert` and `put_pixel`. Decoding, encoding and
//! resampling are delegated to the `image` crate through trusted wrappers;
//! the facade's own logic (format and filter resolution, parameter
//! validation, bounds checking, geometry) is verified against a
//! mathematical model of the pixel grid.

pub mod error;
pub mod facade;
pub mod format;
pub mod model;
pub mod pixel;
pub mod raster;

pub use error::{ErrorKind, ImgError};
pub use facade::Image;
pub use format::{Filter, Format, FormatToken};
pub use pixel::Pixel;
