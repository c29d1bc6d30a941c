//! Tracking categories.

use vstd::prelude::*;

verus! {

/// Whether a tracking category is in use.
#[derive(Clone, Copy, Debug, PartialEq, Eq, Structural)]
pub enum TrackingCategoryStatus {
    Active,
    Archived,
}

} // verus!
