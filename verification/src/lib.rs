//! A pixel canvas: a grid of RGB pixels, the scaling between the grid and
//! its on-screen view, and the engine that edits, zooms and resizes both.

pub mod buffer;
mod entropy;
pub mod decimal;
pub mod engine;
pub mod error;
pub mod pixel;
pub mod viewport;
