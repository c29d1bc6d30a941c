//! Linked transactions: billable expenses.

use vstd::prelude::*;

verus! {

/// Where a linked transaction stands in its life.
#[derive(Clone, Copy, Debug, PartialEq, Eq, Structural)]
pub enum LinkedTransactionStatus {
    Draft,
    Approved,
    Ondraft,
    Billed,
    Voided,
}

/// The kind of a linked transaction.
#[derive(Clone, Copy, Debug, PartialEq, Eq, Structural)]
pub enum LinkedTransactionType {
    Billableexpense,
}

/// The kind of transaction a linked transaction comes from.
#[derive(Clone, Copy, Debug, PartialEq, Eq, Structural)]
pub enum SourceTransactionTypeCode {
    Accpay,
    Spend,
}

} // verus!
