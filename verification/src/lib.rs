//! Quality-tunable JPEG conversion of decoded raster images.
//!
//! The library models a decoded image as plain width, height, channel
//! layout and a flat byte buffer, normalizes it to interleaved 8-bit RGB,
//! and drives a perceptually tuned JPEG encoder over the normalized
//! buffer. File I/O and image decoding stay outside the library; callers
//! hand in decoded pixels and take back the compressed byte stream.

pub mod encode;
pub mod pixels;
