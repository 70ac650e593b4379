//! Buffer lifecycle and color pipeline for compositor screen captures.
//!
//! The crate owns compositor and GPU buffer handles through single-shot
//! release guards, normalizes native pixel layouts into a small set of
//! canonical in-memory representations (including widening packed 10-bit
//! HDR formats to 16-bit samples), decides the tone-mapping pipeline's
//! dispatch, and emits 16-bit PNG streams carrying HDR metadata chunks.

pub mod convert;
pub mod guards;
pub mod hdrpng;
pub mod metadata;
pub mod numerals;
pub mod screencopy;
pub mod shm;
pub mod tenbit;
pub mod tonemap;
pub mod types;
