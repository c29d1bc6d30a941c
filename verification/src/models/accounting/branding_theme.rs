//! Branding themes.

use vstd::prelude::*;

verus! {

/// What a branding theme applies to.
#[derive(Clone, Copy, Debug, PartialEq, Eq, Structural)]
pub enum BrandingThemeType {
    Invoice,
}

} // verus!
