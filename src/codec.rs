//! Canonical bytes: the one deterministic byte form of a value that
//! signatures are made and checked over.

use vstd::prelude::*;

verus! {

/// A value with a canonical byte form.
pub trait Canonical {
    /// The canonical bytes of the value.
    spec fn canonical(&self) -> Seq<u8>;

    /// Computes the canonical bytes of the value.
    fn canonical_bytes(&self) -> (r: Vec<u8>)
        ensures
            r@ == self.canonical(),
    ;
}

/// A byte payload stands for itself.
impl Canonical for Vec<u8> {
    open spec fn canonical(&self) -> Seq<u8> {
        self@
    }

    fn canonical_bytes(&self) -> (r: Vec<u8>) {
        let mut out: Vec<u8> = Vec::new();
        out.extend_from_slice(self.as_slice());
        proof {
            assert(out@ =~= self@);
        }
        out
    }
}

/// The `k` low-order bytes of `n`, least significant first.
pub open spec fn le_bytes(n: nat, k: nat) -> Seq<u8>
    decreases k,
{
    if k == 0 {
        Seq::empty()
    } else {
        seq![(n % 256) as u8] + le_bytes(n / 256, (k - 1) as nat)
    }
}

/// An integer payload is its eight bytes, least significant first.
impl Canonical for u64 {
    open spec fn canonical(&self) -> Seq<u8> {
        le_bytes(*self as nat, 8)
    }

    fn canonical_bytes(&self) -> (r: Vec<u8>) {
        let mut out: Vec<u8> = Vec::new();
        let mut x: u64 = *self;
        let mut i: usize = 0;
        while i < 8
            invariant
                i <= 8,
                out@ + le_bytes(x as nat, (8 - i) as nat) == le_bytes(*self as nat, 8),
            decreases 8 - i,
        {
            let ghost before = out@;
            let ghost low = seq![(x % 256) as u8];
            assert(le_bytes(x as nat, (8 - i) as nat) == low + le_bytes((x / 256) as nat, (7 - i) as nat));
            out.push((x % 256) as u8);
            x = x / 256;
            i += 1;
            assert(out@ + le_bytes(x as nat, (8 - i) as nat) =~= before + (low + le_bytes(x as nat, (8 - i) as nat)));
        }
        assert(out@ =~= out@ + le_bytes(x as nat, 0));
        out
    }
}

} // verus!
