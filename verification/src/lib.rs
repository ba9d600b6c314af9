//! A retained-mode composition engine: cheap descriptions of a user interface
//! are diffed against persistent per-position state, and the difference is
//! recorded as an ordered list of patches for the backing scene graph.
//!
//! - [`compose`]: the build / rebuild / remove contract and the composables.
//! - [`host`]: node handles, handler slots and the patch buffer.
//! - [`driver`]: the per-tick entry point.
//! - [`cells`]: state cells that survive across passes.
//! - [`scene`]: committing patches to a Bevy `World`.
//! - [`template`]: scheduling and change detection for templates.

pub mod cells;
pub mod compose;
pub mod driver;
pub mod host;
pub mod scene;
pub mod template;

pub use compose::{Compose, ComposeError};
