//! Manual journals.

use vstd::prelude::*;

verus! {

/// Where a manual journal stands in its life.
#[derive(Clone, Copy, Debug, PartialEq, Eq, Structural)]
pub enum ManualJournalStatus {
    Draft,
    Posted,
    Deleted,
    Voided,
}

} // verus!
