//! Prepayments.

use vstd::prelude::*;

verus! {

/// Whether a prepayment was received or spent.
#[derive(Clone, Copy, Debug, PartialEq, Eq, Structural)]
pub enum PrepaymentType {
    ReceivePrepayment,
    SpendPrepayment,
}

impl Default for PrepaymentType {
    fn default() -> (value: PrepaymentType)
        ensures
            value == PrepaymentType::ReceivePrepayment,
    {
        PrepaymentType::ReceivePrepayment
    }
}

/// Where a prepayment stands in its life.
#[derive(Clone, Copy, Debug, PartialEq, Eq, Structural)]
pub enum PrepaymentStatus {
    Authorised,
    Paid,
    Voided,
}

} // verus!
