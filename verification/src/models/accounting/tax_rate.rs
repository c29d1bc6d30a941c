//! Tax rates.

use vstd::prelude::*;

verus! {

/// Whether a tax rate is in use.
#[derive(Clone, Copy, Debug, PartialEq, Eq, Structural)]
pub enum TaxRateStatus {
    Active,
    Deleted,
    Archived,
}

} // verus!
