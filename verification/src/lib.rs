//! Scenes of sub-image blits: decoding an image into a pixel buffer,
//! composing an ordered list of drawing operations on a canvas, and the
//! event-driven loop that presents the finished scene.

pub mod color;
pub mod compositor;
pub mod geometry;
pub mod loader;
pub mod pixels;
pub mod present;
