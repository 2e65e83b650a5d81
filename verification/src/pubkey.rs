//! Principal identifiers (addresses) as plain values.
//!
//! An address is 32 bytes. The library holds it as four big-endian 64-bit
//! limbs, so that limb-wise lexicographic comparison agrees with byte-wise
//! lexicographic order on the underlying address, which is the order the
//! sorted authority set is kept in.

use vstd::prelude::*;

verus! {

/// A principal identifier: a 32-byte address held as four big-endian
/// 64-bit limbs.
#[derive(Clone, Copy, Debug, PartialEq, Eq, Structural)]
pub struct Pubkey {
    pub w0: u64,
    pub w1: u64,
    pub w2: u64,
    pub w3: u64,
}

impl Pubkey {
    /// Strict lexicographic order on the four big-endian limbs; agrees
    /// with byte-wise order on the 32-byte address.
    pub open spec fn spec_lt(a: Pubkey, b: Pubkey) -> bool {
        a.w0 < b.w0
            || (a.w0 == b.w0 && a.w1 < b.w1)
            || (a.w0 == b.w0 && a.w1 == b.w1 && a.w2 < b.w2)
            || (a.w0 == b.w0 && a.w1 == b.w1 && a.w2 == b.w2 && a.w3 < b.w3)
    }

    pub fn new(w0: u64, w1: u64, w2: u64, w3: u64) -> (r: Pubkey)
        ensures
            r == (Pubkey { w0, w1, w2, w3 }),
    {
        Pubkey { w0, w1, w2, w3 }
    }

    /// `true` exactly when `self` precedes `other` in address order.
    pub fn lt(&self, other: &Pubkey) -> (r: bool)
        ensures
            r == Pubkey::spec_lt(*self, *other),
    {
        self.w0 < other.w0
            || (self.w0 == other.w0 && self.w1 < other.w1)
            || (self.w0 == other.w0 && self.w1 == other.w1 && self.w2 < other.w2)
            || (self.w0 == other.w0 && self.w1 == other.w1 && self.w2 == other.w2
                && self.w3 < other.w3)
    }

    /// The eight big-endian bytes of one limb.
    pub open spec fn spec_limb_bytes(w: u64) -> Seq<u8> {
        seq![
            (w >> 56) as u8,
            (w >> 48) as u8,
            (w >> 40) as u8,
            (w >> 32) as u8,
            (w >> 24) as u8,
            (w >> 16) as u8,
            (w >> 8) as u8,
            w as u8,
        ]
    }

    /// The 32 bytes of the address, most significant first.
    pub open spec fn spec_bytes(self) -> Seq<u8> {
        Self::spec_limb_bytes(self.w0) + Self::spec_limb_bytes(self.w1)
            + Self::spec_limb_bytes(self.w2) + Self::spec_limb_bytes(self.w3)
    }

    /// The 32 bytes of the address as a vector, for use as a derivation seed.
    pub fn to_bytes(&self) -> (r: Vec<u8>)
        ensures
            r@ == self.spec_bytes(),
    {
        let mut out: Vec<u8> = Vec::new();
        push_limb_bytes(&mut out, self.w0);
        push_limb_bytes(&mut out, self.w1);
        push_limb_bytes(&mut out, self.w2);
        push_limb_bytes(&mut out, self.w3);
        proof {
            assert(out@ =~= self.spec_bytes());
        }
        out
    }
}

/// Appends the eight big-endian bytes of `w` to `out`.
fn push_limb_bytes(out: &mut Vec<u8>, w: u64)
    ensures
        final(out)@ == old(out)@ + Pubkey::spec_limb_bytes(w),
{
    out.push(#[verifier::truncate] ((w >> 56) as u8));
    out.push(#[verifier::truncate] ((w >> 48) as u8));
    out.push(#[verifier::truncate] ((w >> 40) as u8));
    out.push(#[verifier::truncate] ((w >> 32) as u8));
    out.push(#[verifier::truncate] ((w >> 24) as u8));
    out.push(#[verifier::truncate] ((w >> 16) as u8));
    out.push(#[verifier::truncate] ((w >> 8) as u8));
    out.push(#[verifier::truncate] (w as u8));
    proof {
        assert(out@ =~= old(out)@ + Pubkey::spec_limb_bytes(w));
    }
}

/// Pubkey order is a strict total order: exactly one of `a < b`, `a == b`,
/// `b < a` holds, and `<` is transitive.
pub proof fn lemma_pubkey_order_total(a: Pubkey, b: Pubkey, c: Pubkey)
    ensures
        Pubkey::spec_lt(a, b) || a == b || Pubkey::spec_lt(b, a),
        !(Pubkey::spec_lt(a, b) && a == b),
        !(Pubkey::spec_lt(a, b) && Pubkey::spec_lt(b, a)),
        Pubkey::spec_lt(a, b) && Pubkey::spec_lt(b, c) ==> Pubkey::spec_lt(a, c),
{
}

} // verus!
