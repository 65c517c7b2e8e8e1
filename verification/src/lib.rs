//! Runtime core of a container shim: the task lifecycle engine, the image
//! layer resolver, and the small pieces of plumbing around them.

pub mod api;
pub mod cli;
pub mod containerd;
pub mod error;
pub mod events;
pub mod instance;
pub mod laws;
pub mod local;
pub mod metrics;
pub mod sandbox_ttrpc;
pub mod text;
