//! A canvas of fixed logical size, shown inside a viewport of any size.
//!
//! The library computes the largest centered rectangle in which the canvas
//! fits into a viewport with its aspect ratio kept, and maps points between
//! the viewport and the canvas through a camera with pan, zoom and rotation.
//! It draws nothing and asks no window for its size: the caller hands in the
//! viewport and the points, and gets sizes, margins and points back.
//!
//! All numbers are [`Fixed`]: signed fixed-point numbers with 32 fractional
//! bits whose operations round toward zero and clamp at the ends of the range,
//! so that none of them can fail and the result of each is stated exactly.
//!
//! - [`fixed`]: the numbers and their arithmetic;
//! - [`model`]: what a canvas is, mathematically, and the formulas over it;
//! - [`canvas`]: the canvas and its camera;
//! - [`laws`]: what holds of every canvas, proved from the model.

pub mod canvas;
pub mod fixed;
pub mod laws;
pub mod model;

pub use canvas::{Camera, Canvas2D, Vec2};
pub use fixed::Fixed;
