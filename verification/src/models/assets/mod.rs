//! Resources of the Assets API.

pub mod asset;
pub mod common;
