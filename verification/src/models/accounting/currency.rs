//! Currencies.

use vstd::prelude::*;

verus! {

/// A currency the organisation trades in.
#[derive(Clone, Debug, PartialEq)]
pub struct Currency {
    pub code: String,
    pub description: Option<String>,
}

} // verus!
