//! The accumulator side of the hashing model.
//!
//! An accumulator absorbs bytes in order; its whole observable state is the
//! sequence of bytes absorbed so far. A digest can be drawn from that
//! sequence at any point with [`Accumulator::finish`].

use vstd::prelude::*;

verus! {

/// A state accumulator that absorbs hash data byte by byte.
///
/// `absorbed` is the mathematical trace of everything written so far, in
/// order; `write` appends to that trace and does nothing else.
pub trait Hasher {
    spec fn absorbed(&self) -> Seq<u8>;

    fn write(&mut self, bytes: &[u8])
        ensures
            final(self).absorbed() == old(self).absorbed() + bytes@,
    ;
}

/// Offset basis of the 64-bit FNV-1a digest.
pub const FNV_OFFSET: u64 = 0xcbf29ce484222325;

/// Prime of the 64-bit FNV-1a digest.
pub const FNV_PRIME: u64 = 0x100000001b3;

/// The 64-bit FNV-1a digest of a byte sequence.
pub open spec fn fnv1a(s: Seq<u8>) -> u64
    decreases s.len(),
{
    if s.len() == 0 {
        FNV_OFFSET
    } else {
        (fnv1a(s.drop_last()) ^ (s.last() as u64)).wrapping_mul(FNV_PRIME)
    }
}

/// The dispatch-safe accumulator: the one concrete form that an adapter
/// operation invoked through an erased reference can be handed.
///
/// Its state is exactly the bytes absorbed so far, kept in absorption order.
pub struct Accumulator {
    pub data: Vec<u8>,
}

impl View for Accumulator {
    type V = Seq<u8>;

    open spec fn view(&self) -> Seq<u8> {
        self.data@
    }
}

impl Accumulator {
    /// A fresh accumulator that has absorbed nothing.
    pub fn new() -> (r: Accumulator)
        ensures
            r@ == Seq::<u8>::empty(),
    {
        Accumulator { data: Vec::new() }
    }

    /// The FNV-1a digest of everything absorbed so far.
    pub fn finish(&self) -> (r: u64)
        ensures
            r == fnv1a(self@),
    {
        let mut h: u64 = FNV_OFFSET;
        let mut i: usize = 0;
        while i < self.data.len()
            invariant
                i <= self.data.len(),
                h == fnv1a(self@.take(i as int)),
            decreases self.data.len() - i,
        {
            h = (h ^ (self.data[i] as u64)).wrapping_mul(FNV_PRIME);
            proof {
                assert(self@.take(i + 1 as int).drop_last() =~= self@.take(i as int));
                assert(self@.take(i + 1 as int).last() == self@[i as int]);
            }
            i = i + 1;
        }
        proof {
            assert(self@.take(self.data.len() as int) =~= self@);
        }
        h
    }
}

impl Hasher for Accumulator {
    open spec fn absorbed(&self) -> Seq<u8> {
        self.data@
    }

    fn write(&mut self, bytes: &[u8]) {
        let ghost orig: Seq<u8> = self.data@;
        let mut i: usize = 0;
        while i < bytes.len()
            invariant
                i <= bytes.len(),
                self.data@ == orig + bytes@.take(i as int),
            decreases bytes.len() - i,
        {
            self.data.push(bytes[i]);
            proof {
                assert(orig + bytes@.take(i + 1 as int) =~= (orig + bytes@.take(i as int)).push(
                    bytes@[i as int],
                ));
            }
            i = i + 1;
        }
        proof {
            assert(orig + bytes@.take(bytes@.len() as int) =~= orig + bytes@);
        }
    }
}

} // verus!
