//! Planning core of a phase-based video motion magnifier.
//!
//! Everything here is computed on plain values: frame sizes, buffer layouts, parameter
//! blocks, the order of GPU commands, camera fallback chains and application state.  The
//! program around it owns the GPU, the camera and the page, and carries the plans out.

pub mod arith;
pub mod scale;
pub mod words;
pub mod gpu;
pub mod fallback;
pub mod steerable;
pub mod model;
pub mod evm;
pub mod text;
pub mod weights;
pub mod video;
pub mod session;
