//! Private marker that closes the crate's public capabilities.
//!
//! `Counter` and `CountUInt` require this trait, and this module is not
//! public, so only types in this crate can implement them.

use vstd::prelude::*;

verus! {

/// Marker supertrait of the closed capabilities; only this crate can
/// implement it.
pub trait Sealed {

}

} // verus!
