//! A small library for presenting animated frames through a mesh-shading GPU
//! pipeline. The decision core lives here, fully verified: selecting a capable
//! adapter, configuring a presentable surface, building the pipeline
//! description, the resize policy, the per-frame render plan, and the window
//! event dispatcher. A thin platform adapter executes these decisions against
//! the real graphics backend and windowing toolkit.

pub mod adapter;
pub mod config;
pub mod events;
pub mod init;
pub mod laws;
pub mod pipeline;
pub mod renderer;
