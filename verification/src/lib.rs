//! Verified core of a paginated-document viewer: it reconstructs word-level
//! text fragments from per-character glyph geometry, projects their bounds
//! into raster pixel space at a single shared scale, and orchestrates the
//! load / open / per-page render cycle with failure isolation per page.
//!
//! All geometry is carried in fixed-point milli-points (one thousandth of a
//! PDF point), so that every coordinate computation is exact integer
//! arithmetic with proven bounds.

pub mod builder;
pub mod engine;
pub mod errors;
pub mod geometry;
pub mod fragments;
pub mod glyphs;
pub mod orchestrator;
pub mod pipeline;
pub mod project;
pub mod words;
