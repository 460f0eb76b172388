//! Native bridge core for a host-driven pinpad renderer.
//!
//! The host hands this library an opaque surface's window data, flat
//! pixel-rectangle arrays, pinpad grid dimensions, hex color strings and a
//! one-shot pair of circuit buffers; the library validates them, converts the
//! geometry to normalized device coordinates, arranges the pinpad rectangles
//! into a row-major grid, decodes the colors, and owns the resulting engine
//! instance across its create / advance / release lifecycle.

pub mod color;
pub mod engine;
pub mod geometry;
pub mod grid;
