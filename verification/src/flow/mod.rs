//! The processing graph: what is known of frames before they exist, the engine's choice of the
//! next node, and the node definitions.
pub mod analyze;
pub mod codec_nodes;
pub mod command_nodes;
pub mod definitions;
pub mod engine;
pub mod nodes;
pub mod orientation;
pub mod scale;
pub mod white_balance;
