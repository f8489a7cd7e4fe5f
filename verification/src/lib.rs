//! A verified model of a two-layer GPU compositing pipeline.
//!
//! Two rendering backends — a vector-graphics layer and an immediate-mode
//! overlay layer — draw into one shared off-screen surface texture, each
//! under its own GPU context; a compositor then presents that texture to the
//! window framebuffer through a full-screen textured quad.  The library
//! verifies the pipeline's ordering discipline (which context is current
//! when, and that the vector layer's work is flushed before the overlay
//! reads the surface) and the pixel contents of every stage.

pub mod compositor;
pub mod context;
pub mod driver;
pub mod frame;
pub mod overlay;
pub mod scene;
pub mod surface;
