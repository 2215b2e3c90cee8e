//! Core of a viewer for a common astronomical image format: the decoded
//! header and sample models, the log/min-max/rescale normalization
//! engine, the greyscale color mapper, the raster render planner, and
//! the file-selection state machine.  Sample values are 64-bit
//! floating-point numbers; this crate carries each one as its IEEE-754
//! bit pattern, and performs the few numeric operations it cannot
//! reason about through trusted calls into outside math routines.

pub mod bits;
pub mod color;
pub mod data;
pub mod header;
pub mod ingest;
pub mod normalize;
pub mod render;
pub mod state;
