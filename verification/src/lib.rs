//! The verified core of an image-processing pipeline: bitmaps and the operations on their pixels,
//! the decisions of the processing graph and its nodes, error kinds and the codes reported for
//! them, and the buffers through which images come in and go out.

pub mod cancellation;
pub mod codecs;
pub mod context;
pub mod context_methods;
pub mod error;
pub mod errors;
pub mod ffi;
pub mod flow;
pub mod flow_error;
pub mod graphics;
pub mod io;
pub mod json_context;
pub mod text;
pub mod writing;
