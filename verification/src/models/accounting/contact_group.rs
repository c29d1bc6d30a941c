//! Contact groups.

use vstd::prelude::*;

verus! {

/// Whether a contact group stands.
#[derive(Clone, Copy, Debug, PartialEq, Eq, Structural)]
pub enum ContactGroupStatus {
    Active,
    Deleted,
}

} // verus!
