//! The resources of the Xero API, as far as they are plain values.

pub mod accounting;
pub mod assets;
