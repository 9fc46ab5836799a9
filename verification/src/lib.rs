//! A resource-deduplicating, command-batching layer for a GPU device.
//!
//! Callers describe GPU work declaratively: bind groups, pipelines and
//! passes are plain values.  The library derives layouts from those values,
//! deduplicates every expensive object through generational caches keyed by
//! structural identity, and turns a finished frame into an ordered plan of
//! object creations and device commands.  Executing that plan against a real
//! device (and nothing else) is left to the surrounding application.

pub mod bind_group;
pub mod buffer;
pub mod command_encoder;
pub mod commands;
pub mod compute_pass;
pub mod compute_pipeline;
pub mod context;
pub mod dispatch;
pub mod draw_call;
pub mod keyed_cache;
pub mod pipeline_layout;
pub mod render_pass;
pub mod render_pipeline;
pub mod render_texture;
pub mod sampler;
pub mod shader;
pub mod texture;
pub mod types;
