//! Escape-time fractal rendering: the integer side of the pipeline.
//!
//! The library holds the parts of a fractal renderer that work on exact
//! values: splitting and parsing coordinate pairs, the tangent decisions of
//! the monotone cubic palette builder, the fixed-size palette and its lookup,
//! the iteration-limit logic shared by every escape-time kernel, the row-band
//! layout of the RGB pixel buffer with the shading of each band, and PNG
//! encoding of the finished buffer.

pub mod band;
pub mod encode;
pub mod escape;
pub mod monotone;
pub mod palette;
pub mod parse;

pub use band::{buffer_len, render_in_bands, row_band, shade_band, Bounds};
pub use parse::{pair_of, parse_pair, split_pair};
pub use monotone::{plan_tangents, TangentPlan};
pub use palette::{Color, Palette, PALETTE_LEN};
pub use escape::{escape_step, EscapeStep, ITERATION_LIMIT};
pub use encode::{encode_image, EncodeError};
