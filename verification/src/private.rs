//! What only this crate can name.

use vstd::prelude::*;

verus! {

/// The argument of the method that keeps `Random` from being implemented elsewhere.
pub struct Seal;

} // verus!
