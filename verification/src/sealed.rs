//! The sealing marker.
//!
//! This module is not exported, so no outside code can name [`Sealed`],
//! let alone implement it. Membership comes only through the one blanket
//! implementation below: exactly the types that satisfy the generic
//! hashing capability are sealed, and no type can satisfy one capability
//! without the other.

use vstd::prelude::*;

use crate::hashable::Hashable;

verus! {

/// Prerequisite of the adapter capability, satisfiable only from inside
/// this crate.
pub trait Sealed {
}

impl<T: Hashable> Sealed for T {
}

} // verus!
