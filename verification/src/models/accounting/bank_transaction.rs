//! Spend and receive money transactions.

use vstd::prelude::*;

verus! {

/// The direction and purpose of a bank transaction.
#[derive(Clone, Copy, Debug, PartialEq, Eq, Structural)]
pub enum BankTransactionType {
    Receive,
    ReceiveOverpayment,
    ReceivePrepayment,
    Spend,
    SpendOverpayment,
    SpendPrepayment,
    ReceiveTransfer,
    SpendTransfer,
}

impl Default for BankTransactionType {
    fn default() -> (value: BankTransactionType)
        ensures
            value == BankTransactionType::Spend,
    {
        BankTransactionType::Spend
    }
}

/// Whether a bank transaction stands.
#[derive(Clone, Copy, Debug, PartialEq, Eq, Structural)]
pub enum BankTransactionStatus {
    Authorised,
    Deleted,
}

} // verus!
