//! Verified core of a minimal GPU quad renderer.
//!
//! The library holds the decision logic of the frame loop: how the surface
//! configuration is chosen and kept up to date across resizes, what command
//! sequence one frame records, how acquisition failures are classified, and
//! the fixed quad geometry. The windowing event loop and the graphics backend
//! calls live outside the library and consume the values computed here.
pub mod color;
pub mod frame;
pub mod geometry;
pub mod lifecycle;
pub mod pipeline;
pub mod surface;
