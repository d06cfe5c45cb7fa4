//! A verified core for a 2-D user-interface rendering backend.
//!
//! The crate turns a retained-free description of one frame — an ordered
//! list of clipped draw primitives plus incremental texture updates — into
//! an explicit sequence of GPU state changes and draw calls, while keeping a
//! cache of texture objects keyed by opaque identifiers. The caller executes
//! the command sequence against a real graphics context; everything that
//! decides *what* is drawn, uploaded, or freed is verified here.

pub mod clipboard;
pub mod commands;
pub mod diagnostics;
pub mod fixed;
pub mod geometry;
pub mod mesh;
pub mod painter;
pub mod shader;
pub mod texture;
