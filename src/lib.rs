//! A layered painting engine: ordered layers, each painted by queued brush
//! strokes, are composited through named blend operators into one frame.
//!
//! The library records what a frame does as a list of commands over handles
//! of images, buffers and pipelines; the host that owns the graphics device
//! replays that list.

pub mod command;
pub mod pipeline;
pub mod program;
pub mod buffer;
pub mod mesh;
pub mod registry;
pub mod blendop;
pub mod brush;
pub mod layer;
pub mod composite;
pub mod canvas;
pub mod texture;
pub mod framework;
pub mod algebra;
pub mod surface;
