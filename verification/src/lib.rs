pub mod api;
pub mod clipboard;
mod clock;
pub mod commands;
pub mod detection;
pub mod extraction;
pub mod input;
pub mod orchestrator;
pub mod pipeline;
pub mod platform;
pub mod replacement;
pub mod runtime;
pub mod storage;
pub mod text;
