//! The model worker and the life cycle of the engine.

pub mod cache_laws;
pub mod engine;
pub mod inference;
pub mod inference_laws;
pub mod sampling;
pub mod status;
pub mod step_laws;
