//! Turns a raster image into screen-space pointer strokes and replays them.
//!
//! The pipeline scales a source picture into a working raster that fits a
//! share of the screen, centres it, runs edge detection and contour tracing
//! on it, and keeps the resulting strokes in absolute screen coordinates. A
//! replay session then walks those strokes as pointer actions, and a small
//! state machine makes sure that only one session runs at a time.

pub mod raster;
pub mod scaler;
pub mod extract;
pub mod replay;
pub mod control;
pub mod panel;
