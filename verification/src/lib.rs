//! An incremental tree-reconciliation engine in the style of a cooperative
//! virtual-DOM renderer.
//!
//! The engine compares a newly described element tree against the previously
//! committed fiber tree, computes per-node effect tags, and applies them to a
//! host tree. Fibers, elements and host nodes live in integer-indexed arenas
//! inside [`engine::Context`]; the host mutations are both applied to a model
//! host tree and recorded as commands that an embedding can replay on a real
//! display surface.

pub mod element;
pub mod engine;
pub mod fiber;
pub mod host;
pub mod laws;
pub mod props;
pub mod util;
