//! Expense claims.

use vstd::prelude::*;

verus! {

/// Where an expense claim stands in its life.
#[derive(Clone, Copy, Debug, PartialEq, Eq, Structural)]
pub enum ExpenseClaimStatus {
    Submitted,
    Authorised,
    Paid,
    Voided,
    Deleted,
}

} // verus!
