//! The seal of the query capability: only types of this crate implement
//! [`Seal`], which keeps [`crate::CharMatchExt`] restricted to carriers
//! backed by the crate's own classification table.

use vstd::prelude::*;

verus! {

/// Marker supertrait of [`crate::CharMatchExt`]; implemented for exactly
/// the crate's own carrier types.
pub trait Seal {

}

} // verus!
