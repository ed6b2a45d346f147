//! The generic hashing capability and implementations for plain values.

use vstd::prelude::*;

use crate::hasher::Hasher;

verus! {

/// The generic hashing capability: contribute this value's hash data to a
/// caller-supplied accumulator of any type.
///
/// `contribution` is the byte trace this value appends; `hash` appends
/// exactly that trace and touches nothing else. The accumulator type is a
/// parameter of the operation itself, which is what keeps this capability
/// out of reach of erased references and motivates the adapter in the crate
/// root.
pub trait Hashable {
    spec fn contribution(&self) -> Seq<u8>;

    fn hash<H: Hasher>(&self, state: &mut H)
        ensures
            final(state).absorbed() == old(state).absorbed() + self.contribution(),
    ;
}

/// The little-endian byte decomposition of a 64-bit value.
pub open spec fn u64_le_bytes(v: u64) -> Seq<u8> {
    seq![
        (v % 256) as u8,
        ((v / 0x100) % 256) as u8,
        ((v / 0x10000) % 256) as u8,
        ((v / 0x1000000) % 256) as u8,
        ((v / 0x100000000) % 256) as u8,
        ((v / 0x10000000000) % 256) as u8,
        ((v / 0x1000000000000) % 256) as u8,
        ((v / 0x100000000000000) % 256) as u8,
    ]
}

impl Hashable for u64 {
    open spec fn contribution(&self) -> Seq<u8> {
        u64_le_bytes(*self)
    }

    fn hash<H: Hasher>(&self, state: &mut H) {
        let v = *self;
        let mut buf: Vec<u8> = Vec::new();
        buf.push((v % 256) as u8);
        buf.push(((v / 0x100) % 256) as u8);
        buf.push(((v / 0x10000) % 256) as u8);
        buf.push(((v / 0x1000000) % 256) as u8);
        buf.push(((v / 0x100000000) % 256) as u8);
        buf.push(((v / 0x10000000000) % 256) as u8);
        buf.push(((v / 0x1000000000000) % 256) as u8);
        buf.push(((v / 0x100000000000000) % 256) as u8);
        proof {
            assert(buf@ =~= u64_le_bytes(v));
        }
        state.write(buf.as_slice());
    }
}

impl Hashable for u8 {
    open spec fn contribution(&self) -> Seq<u8> {
        seq![*self]
    }

    fn hash<H: Hasher>(&self, state: &mut H) {
        let mut buf: Vec<u8> = Vec::new();
        buf.push(*self);
        proof {
            assert(buf@ =~= seq![*self]);
        }
        state.write(buf.as_slice());
    }
}

impl Hashable for bool {
    open spec fn contribution(&self) -> Seq<u8> {
        if *self {
            seq![1u8]
        } else {
            seq![0u8]
        }
    }

    fn hash<H: Hasher>(&self, state: &mut H) {
        let mut buf: Vec<u8> = Vec::new();
        if *self {
            buf.push(1u8);
        } else {
            buf.push(0u8);
        }
        proof {
            assert(buf@ =~= self.contribution());
        }
        state.write(buf.as_slice());
    }
}

impl<T: Hashable> Hashable for Box<T> {
    open spec fn contribution(&self) -> Seq<u8> {
        (**self).contribution()
    }

    fn hash<H: Hasher>(&self, state: &mut H) {
        (**self).hash(state);
    }
}

/// A two-field container, hashed the way a derived implementation hashes a
/// struct: each field's contribution in declaration order.
pub struct Pair<A, B> {
    pub first: A,
    pub second: B,
}

impl<A: Hashable, B: Hashable> Hashable for Pair<A, B> {
    open spec fn contribution(&self) -> Seq<u8> {
        self.first.contribution() + self.second.contribution()
    }

    fn hash<H: Hasher>(&self, state: &mut H) {
        self.first.hash(state);
        self.second.hash(state);
        proof {
            assert(old(state).absorbed() + self.contribution() =~= (old(state).absorbed()
                + self.first.contribution()) + self.second.contribution());
        }
    }
}

} // verus!
