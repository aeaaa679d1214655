//! Software renderer for a window that shows which part of the monitor's
//! edge zone it covers, with a line of bitmap text stamped on top.

pub mod app;
pub mod font;
pub mod frame;
pub mod geometry;
pub mod glyph;
pub mod raster;
