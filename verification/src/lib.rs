//! The deterministic core of an instanced model viewer.
//!
//! Everything the viewer decides without touching the GPU, the window system
//! or the file system lives here and is verified: which keys steer the camera,
//! how mesh data is packed for upload, which commands a draw records and in
//! what order, where the instances of the grid stand, and how the orchestrator
//! reacts to window events.  Real-valued quantities are carried as IEEE-754 bit
//! patterns or exact integers; the numeric work on them is left to the caller.

pub mod camera;
pub mod draw;
pub mod event;
pub mod instance;
pub mod model;
pub mod offscreen;
pub mod pipeline;
pub mod state;
pub mod texture;
pub mod words;
