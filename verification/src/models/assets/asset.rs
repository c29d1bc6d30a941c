//! Fixed assets.

use vstd::prelude::*;

verus! {

/// Where a fixed asset stands in its life.
#[derive(Clone, Copy, Debug, PartialEq, Eq, Structural)]
pub enum AssetStatus {
    Draft,
    Registered,
    Disposed,
}

impl AssetStatus {
    /// The status as the Assets API wants it in a query.
    pub open spec fn spec_query_value(&self) -> Seq<char> {
        match self {
            AssetStatus::Draft => "DRAFT"@,
            AssetStatus::Registered => "REGISTERED"@,
            AssetStatus::Disposed => "DISPOSED"@,
        }
    }

    /// The status as the Assets API wants it in a query: its name in upper
    /// case.
    pub fn query_value(&self) -> (value: &'static str)
        ensures
            value@ == self.spec_query_value(),
    {
        match self {
            AssetStatus::Draft => "DRAFT",
            AssetStatus::Registered => "REGISTERED",
            AssetStatus::Disposed => "DISPOSED",
        }
    }
}

} // verus!
