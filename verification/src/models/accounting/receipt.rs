//! Receipts.

use vstd::prelude::*;

verus! {

/// Where a receipt stands in its life.
#[derive(Clone, Copy, Debug, PartialEq, Eq, Structural)]
pub enum ReceiptStatus {
    Draft,
    Submitted,
    Authorised,
    Declined,
    Deleted,
}

} // verus!
