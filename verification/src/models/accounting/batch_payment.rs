//! Batch payments.

use vstd::prelude::*;

verus! {

/// Whether a batch pays bills or receives sales.
#[derive(Clone, Copy, Debug, PartialEq, Eq, Structural)]
pub enum BatchPaymentType {
    Paybatch,
    Recbatch,
}

/// Whether a batch payment stands.
#[derive(Clone, Copy, Debug, PartialEq, Eq, Structural)]
pub enum BatchPaymentStatus {
    Authorised,
    Deleted,
}

} // verus!
