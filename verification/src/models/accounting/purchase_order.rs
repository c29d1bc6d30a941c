//! Purchase orders.

use vstd::prelude::*;

verus! {

/// Where a purchase order stands in its life.
#[derive(Clone, Copy, Debug, PartialEq, Eq, Structural)]
pub enum PurchaseOrderStatus {
    Draft,
    Submitted,
    Authorised,
    Billed,
    Deleted,
}

} // verus!
