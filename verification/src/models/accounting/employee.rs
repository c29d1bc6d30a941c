//! Employees.

use vstd::prelude::*;

verus! {

/// Whether an employee is in use.
#[derive(Clone, Copy, Debug, PartialEq, Eq, Structural)]
pub enum EmployeeStatus {
    Active,
    Archived,
}

} // verus!
