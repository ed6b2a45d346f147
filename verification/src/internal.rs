//! Names that generated code references. Not public API: this namespace
//! exists so that the generator's output can resolve the foundational
//! hashing names through one fixed path, whatever the user has imported.

pub use crate::DynHash;
pub use crate::hash_erased;
pub use crate::hashable::Hashable;
pub use crate::hasher::Accumulator;
pub use crate::hasher::Hasher;
