//! Credit notes.

use vstd::prelude::*;

verus! {

/// Whether a credit note is owed to a supplier or to a customer.
#[derive(Clone, Copy, Debug, PartialEq, Eq, Structural)]
pub enum CreditNoteType {
    AccountsPayable,
    AccountsReceivable,
}

impl Default for CreditNoteType {
    fn default() -> (value: CreditNoteType)
        ensures
            value == CreditNoteType::AccountsReceivable,
    {
        CreditNoteType::AccountsReceivable
    }
}

/// Where a credit note stands in its life.
#[derive(Clone, Copy, Debug, PartialEq, Eq, Structural)]
pub enum CreditNoteStatus {
    Draft,
    Submitted,
    Deleted,
    Authorised,
    Paid,
    Voided,
}

} // verus!
