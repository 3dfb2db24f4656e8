//! Bitmaps and the operations on their pixels.
pub mod aligned_buffer;
pub mod alpha;
pub mod bitmaps;
pub mod color;
pub mod copy_rect;
pub mod fill;
pub mod flip;
pub mod hashing;
pub mod histogram;
pub mod math;
pub mod swizzle;
pub mod transpose;
pub mod whitespace;
