//! Byte-string helpers shared by the transforms: XOR, constant-time equality
//! and wiping of key material.
use vstd::prelude::*;
use subtle::ConstantTimeEq;
use zeroize::Zeroize;

verus! {

/// Byte-wise XOR of `a` with the first `a.len()` bytes of `b`.
pub open spec fn xor_bytes(a: Seq<u8>, b: Seq<u8>) -> Seq<u8> {
    Seq::new(a.len(), |i: int| a[i] ^ b[i])
}

/// XORing the same pad twice gives the original bytes back.
pub proof fn lemma_xor_involution(a: Seq<u8>, b: Seq<u8>)
    ensures
        xor_bytes(xor_bytes(a, b), b) == a,
{
    assert forall|i: int| 0 <= i < a.len() implies xor_bytes(xor_bytes(a, b), b)[i] == a[i] by {
        let x = a[i];
        let y = b[i];
        assert((x ^ y) ^ y == x) by (bit_vector);
    }
    assert(xor_bytes(xor_bytes(a, b), b) =~= a);
}

/// Returns `a ^ b` over the length of `a`.
pub fn xor_with(a: &[u8], b: &[u8]) -> (r: Vec<u8>)
    requires
        a@.len() <= b@.len(),
    ensures
        r@ == xor_bytes(a@, b@),
{
    let mut r: Vec<u8> = Vec::with_capacity(a.len());
    let mut i: usize = 0;
    while i < a.len()
        invariant
            i <= a@.len(),
            a@.len() <= b@.len(),
            r@ =~= xor_bytes(a@, b@).take(i as int),
        decreases a@.len() - i,
    {
        r.push(a[i] ^ b[i]);
        i = i + 1;
    }
    assert(r@ =~= xor_bytes(a@, b@));
    r
}

/// Relies on subtle's `ConstantTimeEq` for byte slices: true exactly when both
/// slices have the same length and the same bytes, compared without a
/// content-dependent early exit.
#[verifier::external_body]
pub(crate) fn ct_eq(a: &[u8], b: &[u8]) -> (r: bool)
    ensures
        r == (a@ == b@),
{
    bool::from(a.ct_eq(b))
}

/// Relies on zeroize's `Zeroize` for `Vec`: overwrites the contents and the spare
/// capacity with zeros, then clears the vector.
#[verifier::external_body]
pub(crate) fn wipe(v: &mut Vec<u8>)
    ensures
        final(v)@.len() == 0,
{
    v.zeroize();
}

} // verus!
