//! Users of the organisation.

use vstd::prelude::*;

verus! {

/// What a user may do in the organisation.
#[derive(Clone, Copy, Debug, PartialEq, Eq, Structural)]
pub enum UserRole {
    Readonly,
    Invoiceonly,
    Standard,
    Financialadviser,
    Managedclient,
    Cashbookclient,
    Admin,
    Removed,
}

} // verus!
