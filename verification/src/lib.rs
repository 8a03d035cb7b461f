//! Crops images to a requested aspect ratio while keeping detected faces in
//! the frame.
//!
//! The crate decides which axis of an image to shrink, how large the crop
//! is, and where it sits; it leaves decoding, detection and encoding to its
//! caller and works on plain dimensions, rectangles and pixel buffers.

pub mod batch;
pub mod configuration;
pub mod detector;
pub mod geometry;
pub mod naming;
pub mod numeric;
pub mod pixels;
