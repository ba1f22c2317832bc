//! Supervision and dispatch of vision-inference providers.
//!
//! The crate decides; its callers perform the network and process work and
//! hand the outcomes back as plain values.

pub mod analysis;
mod clock;
pub mod comparison;
pub mod dispatch;
pub mod http;
pub mod json;
pub mod moondream_manager;
pub mod ollama_manager;
pub mod text;
pub mod yolo_detector;
