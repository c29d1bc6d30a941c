//! Quotes.

use vstd::prelude::*;

verus! {

/// Where a quote stands in its life.
#[derive(Clone, Copy, Debug, PartialEq, Eq, Structural)]
pub enum QuoteStatus {
    Draft,
    Deleted,
    Sent,
    Declined,
    Accepted,
    Invoiced,
}

} // verus!
