//! A committing PRF built from HKDF over a hash function.
//!
//! `prk = HKDF-Extract(salt = "HkdfComPrf", ikm = K)`; for a message M the
//! commitment is `HKDF-Expand(prk, "P" || M, 2|K|)` and the mask is
//! `HKDF-Expand(prk, "L" || M, |K|)`. The labels keep the two outputs apart.
use vstd::prelude::*;
use vstd::pervasive::unreached;
use crate::committing_prf::{CommittingPrf, NONCE_SIZE};
use crate::error::ConfigError;
use crate::hash::{
    hkdf_expand, hkdf_extract, hkdf_max_len, hkdf_okm, hkdf_prk, output_size, HashKind,
};

verus! {

/// The extraction salt, the bytes of "HkdfComPrf".
pub open spec fn com_prf_salt() -> Seq<u8> {
    seq![0x48u8, 0x6b, 0x64, 0x66, 0x43, 0x6f, 0x6d, 0x50, 0x72, 0x66]
}

/// The label of the commitment, "P".
pub open spec fn com_label() -> Seq<u8> {
    seq![0x50u8]
}

/// The label of the mask, "L".
pub open spec fn mask_label() -> Seq<u8> {
    seq![0x4cu8]
}

/// The commitment for `msg` under `key`.
pub open spec fn hkdf_com(h: HashKind, key: Seq<u8>, msg: Seq<u8>) -> Seq<u8> {
    hkdf_okm(h, hkdf_prk(h, com_prf_salt(), key), com_label() + msg, 2 * key.len())
}

/// The mask for `msg` under `key`.
pub open spec fn hkdf_mask(h: HashKind, key: Seq<u8>, msg: Seq<u8>) -> Seq<u8> {
    hkdf_okm(h, hkdf_prk(h, com_prf_salt(), key), mask_label() + msg, key.len())
}

/// Key lengths the HKDF committing PRF over `h` takes: the commitment, twice the
/// key, must fit in one HKDF expansion.
pub open spec fn hkdf_com_prf_accepts(h: HashKind, key_len: nat) -> bool {
    2 * key_len <= hkdf_max_len(h)
}

/// The HKDF committing PRF is a function of the hash, the key and the message:
/// two instances over the same hash and key give the same commitment and mask on
/// the same message.
pub proof fn lemma_hkdf_com_prf_deterministic(p: HkdfComPrf, q: HkdfComPrf, msg: Seq<u8>)
    requires
        p@ == q@,
        p.hash() == q.hash(),
    ensures
        p.com_of(msg) == q.com_of(msg),
        p.mask_of(msg) == q.mask_of(msg),
{
}

/// The HKDF commitment is twice as long as the HKDF mask, which is as long as
/// the key.
pub proof fn lemma_hkdf_com_prf_sizes(h: HashKind, key: Seq<u8>, msg: Seq<u8>)
    ensures
        hkdf_mask(h, key, msg).len() == key.len(),
        hkdf_com(h, key, msg).len() == 2 * hkdf_mask(h, key, msg).len(),
{
}

/// The HKDF committing PRF. It keeps the pseudorandom key, not the key itself;
/// the key stands in its view.
pub struct HkdfComPrf {
    hash: HashKind,
    prk: Vec<u8>,
    mask_size: usize,
    key: Ghost<Seq<u8>>,
}

impl View for HkdfComPrf {
    type V = Seq<u8>;

    closed spec fn view(&self) -> Seq<u8> {
        self.key@
    }
}

impl HkdfComPrf {
    /// The hash function the PRF runs on.
    pub closed spec fn hash(&self) -> HashKind {
        self.hash
    }

    /// The pseudorandom key was extracted from the key, and the commitment fits
    /// in one expansion.
    pub closed spec fn inv(&self) -> bool {
        &&& self.prk@ == hkdf_prk(self.hash, com_prf_salt(), self.key@)
        &&& self.mask_size == self.key@.len()
        &&& hkdf_com_prf_accepts(self.hash, self.key@.len())
    }

    /// Builds the PRF over `h` from `key`; the mask is as long as the key. A key
    /// whose commitment (twice its length) would not fit in one HKDF expansion
    /// is refused with `OutputTooLong`.
    pub fn new(h: HashKind, key: &[u8]) -> (r: Result<HkdfComPrf, ConfigError>)
        ensures
            r is Ok <==> hkdf_com_prf_accepts(h, key@.len()),
            r is Err ==> r == Err::<HkdfComPrf, ConfigError>(ConfigError::OutputTooLong),
            r matches Ok(p) ==> p@ == key@ && p.hash() == h && p.well_formed(),
    {
        let max: usize = 255 * output_size(h);
        if key.len() > max / 2 {
            return Err(ConfigError::OutputTooLong);
        }
        let salt: Vec<u8> = vec![0x48u8, 0x6b, 0x64, 0x66, 0x43, 0x6f, 0x6d, 0x50, 0x72, 0x66];
        assert(salt@ =~= com_prf_salt());
        let prk = hkdf_extract(h, salt.as_slice(), key);
        Ok(HkdfComPrf { hash: h, prk, mask_size: key.len(), key: Ghost(key@) })
    }
}

impl CommittingPrf for HkdfComPrf {
    open spec fn well_formed(&self) -> bool {
        self.inv()
    }

    open spec fn mask_size(&self) -> nat {
        self@.len()
    }

    open spec fn com_of(&self, msg: Seq<u8>) -> Seq<u8> {
        hkdf_com(self.hash(), self@, msg)
    }

    open spec fn mask_of(&self, msg: Seq<u8>) -> Seq<u8> {
        hkdf_mask(self.hash(), self@, msg)
    }

    /// The HKDF PRF: `(commitment, mask)` for `msg`.
    fn prf(&self, msg: &[u8]) -> (r: (Vec<u8>, Vec<u8>)) {
        let p: Vec<u8> = vec![0x50u8];
        let l: Vec<u8> = vec![0x4cu8];
        assert(p@ =~= com_label());
        assert(l@ =~= mask_label());
        let com = hkdf_expand(self.hash, self.prk.as_slice(), p.as_slice(), msg, 2 * self.mask_size);
        let mask = hkdf_expand(self.hash, self.prk.as_slice(), l.as_slice(), msg, self.mask_size);
        match (com, mask) {
            (Some(com), Some(mask)) => (com, mask),
            _ => unreached(),
        }
    }
}

} // verus!
