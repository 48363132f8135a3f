//! Fits an encoded image into a display box, corrects its orientation and
//! re-encodes it as PNG.

pub mod grid;
pub mod orientation;
pub mod codec;
pub mod adjust;

pub use adjust::{adjust_decoded, adjust_image, reorient, try_adjust_image, AdjustError};
pub use orientation::ImageOrientation;
