//! The decisions and pixel conversions of the image codecs: what each decoder and encoder
//! decides around its codec calls, and how frames move between bitmaps and codec buffers.
pub mod decoder_state;
pub mod encoder_plan;
pub mod frame_pixels;
pub mod gif_state;
pub mod zen_decoder;
