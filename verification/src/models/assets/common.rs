//! How fixed assets are depreciated.

use vstd::prelude::*;

verus! {

/// How the value of an asset goes down.
#[derive(Clone, Copy, Debug, PartialEq, Eq, Structural)]
pub enum DepreciationMethod {
    NoDepreciation,
    StraightLine,
    DiminishingValue100,
    DiminishingValue150,
    DiminishingValue200,
    FullDepreciation,
}

/// Whether depreciation is worked out from a rate or from a lifetime.
#[derive(Clone, Copy, Debug, PartialEq, Eq, Structural)]
pub enum DepreciationCalculationMethod {
    Rate,
    Life,
    Unspecified,
}

/// How a part of a month counts.
#[derive(Clone, Copy, Debug, PartialEq, Eq, Structural)]
pub enum AveragingMethod {
    ActualDays,
    FullMonth,
}

} // verus!
