//! Verified core of the projection-mapping application: configuration,
//! command dispatch decisions, frame routing, GPU readback bookkeeping,
//! video-matrix layout, and the control window's editing rules.

pub mod audio;
pub mod commands;
pub mod config;
pub mod events;
pub mod frames;
pub mod matrix;
pub mod readback;
pub mod text;
pub mod ui;
pub mod window;
