//! Decision logic of a multi-camera stitching engine.
//!
//! Everything in this crate computes on plain values and is verified against
//! the contracts written next to it. Devices, drivers, files and floating
//! point live outside, in code that calls in here for each decision.

pub mod analyze;
pub mod bayer;
pub mod calibration;
pub mod coreml;
pub mod cuda;
pub mod d3d11;
pub mod detector;
pub mod diffusion;
pub mod dmabuf;
pub mod document;
pub mod dx12;
pub mod encode;
pub mod engine;
pub mod filter;
pub mod framesync;
pub mod gpu;
pub mod grid;
pub mod lens;
pub mod lens_preview;
pub mod metal;
pub mod npp;
pub mod number;
pub mod nv12;
pub mod nvbuf;
pub mod panner;
pub mod pipeline;
pub mod planes;
pub mod pose;
pub mod projection;
pub mod replay;
pub mod resources;
pub mod ring;
pub mod text;
pub mod time;
