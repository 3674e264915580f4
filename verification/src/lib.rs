//! The rules of a local text-rewriting service: rewriting styles and prompts,
//! configuration, the inference protocol of the model worker, the life cycle of
//! the engine, and the answers given on the session bus.

pub mod clock;
pub mod config;
pub mod daemon;
pub mod dbus;
pub mod llm;
pub mod model;
pub mod path;
pub mod prompt;
pub mod relay;
pub mod text;
