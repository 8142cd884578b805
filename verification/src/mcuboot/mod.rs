//! MCUboot firmware images.

pub mod image;

pub use image::{get_image_info, ImageInfo, ImageParseError, ImageVersion};
