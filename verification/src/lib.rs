//! Core of a screenshot capture-and-annotate tool: a typed geometric
//! annotation model, the interactive editor with its undo/redo stacks,
//! an offscreen rasterizer that reproduces the same geometry at native
//! resolution for export, and the decision logic of the capture/export
//! worker protocol.
//!
//! All geometry lives in image space: integer pixel coordinates of the
//! currently displayed (possibly cropped) image, origin at the top left.
//! Only the display transform differs between the interactive renderer
//! and the export rasterizer.

pub mod annotation;
pub mod config;
pub mod editor;
pub mod geometry;
pub mod keybinds;
pub mod pages;
pub mod raster;
pub mod render;
pub mod save_destination;
pub mod session;
pub mod sync;
