//! Hashing through an erased, dynamically dispatched reference.
//!
//! The generic hashing capability ([`Hashable`]) takes a caller-chosen
//! accumulator type on every call, so it cannot be invoked through a
//! reference whose concrete type has been erased. This crate closes that gap
//! with a fixed-signature adapter capability, [`DynHash`], supplied
//! automatically for every hashable type by a single blanket rule, and with a
//! generator ([`expand::expand`]) that produces, for a user's own interface,
//! the four forwarding implementations (one per marker decoration) that wire
//! the generic entry point back to the adapter.

use vstd::prelude::*;

pub mod expand;
pub mod hashable;
pub mod hasher;
pub mod internal;
pub mod parse;
mod sealed;
pub mod token;

use crate::hashable::Hashable;
use crate::hasher::Hasher;
use crate::hasher::Accumulator;
use crate::sealed::Sealed;

verus! {

/// The dispatch-safe hashing capability.
///
/// Its single operation has a fixed signature — the accumulator is the one
/// concrete dispatch-safe form, not a per-call type parameter — so the
/// operation can be invoked on a value whose concrete type has been erased.
/// `dyn_contribution` is the byte trace the operation appends; the blanket
/// implementation pins it to the type's own [`Hashable::contribution`].
///
/// The capability is sealed behind an unexported prerequisite: it holds for
/// every [`Hashable`] type through the one blanket implementation below,
/// and can be had no other way.
pub trait DynHash: Sealed {
    spec fn dyn_contribution(&self) -> Seq<u8>;

    fn dyn_hash(&self, state: &mut Accumulator)
        ensures
            final(state).absorbed() == old(state).absorbed() + self.dyn_contribution(),
    ;
}

impl<T: Hashable> DynHash for T {
    open spec fn dyn_contribution(&self) -> Seq<u8> {
        self.contribution()
    }

    fn dyn_hash(&self, state: &mut Accumulator) {
        self.hash(state);
    }
}

/// The body every generated forwarding implementation has: hash a value that
/// is only known to carry the adapter capability, by delegating to it.
pub fn hash_erased<T: DynHash>(value: &T, state: &mut Accumulator)
    ensures
        final(state).absorbed() == old(state).absorbed() + value.dyn_contribution(),
{
    value.dyn_hash(state);
}

/// Forwarding equivalence: the adapter operation contributes exactly the
/// bytes that the type's own generic hashing operation contributes, so both
/// leave any accumulator in the same state.
pub proof fn lemma_forwarding_equivalence<T: Hashable>(value: &T)
    ensures
        value.dyn_contribution() == value.contribution(),
{
}

/// Dispatch transparency: every generated forwarding implementation,
/// whichever of the four marker decorations it is for, has the one body of
/// [`hash_erased`] — delegate to the adapter — so hashing a value through
/// an erased reference takes an accumulator from `start` to exactly the
/// state that hashing the concrete value directly reaches.
pub proof fn lemma_dispatch_transparency<T: Hashable>(value: &T, start: Seq<u8>)
    ensures
        start + value.dyn_contribution() == start + value.contribution(),
{
}

/// Idempotent composition: the state an accumulator reaches by hashing a
/// container is a function of the container's contribution and of the
/// accumulator's starting state alone, so two invocations from identical
/// starting states end in identical states.
pub proof fn lemma_idempotent_composition<C: Hashable>(
    container: &C,
    start: Seq<u8>,
    first_run: Seq<u8>,
    second_run: Seq<u8>,
)
    requires
        first_run == start + container.contribution(),
        second_run == start + container.contribution(),
    ensures
        first_run == second_run,
{
}

} // verus!
