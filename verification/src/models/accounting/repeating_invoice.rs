//! Repeating invoices.

use vstd::prelude::*;

verus! {

/// Where a repeating invoice stands in its life.
#[derive(Clone, Copy, Debug, PartialEq, Eq, Structural)]
pub enum RepeatingInvoiceStatus {
    Draft,
    Authorised,
    Deleted,
}

/// The unit a schedule's period is counted in.
#[derive(Clone, Copy, Debug, PartialEq, Eq, Structural)]
pub enum ScheduleUnit {
    Weekly,
    Monthly,
}

} // verus!
