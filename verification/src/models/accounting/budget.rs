//! Budgets.

use vstd::prelude::*;

verus! {

/// Whether a budget covers the organisation or a tracking category.
#[derive(Clone, Copy, Debug, PartialEq, Eq, Structural)]
pub enum BudgetType {
    Overall,
    Tracking,
}

} // verus!
