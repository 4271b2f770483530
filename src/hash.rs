//! HKDF and HMAC over SHA-256 and SHA-512, for the hash-based committing PRF and
//! the HtE transforms.
use vstd::prelude::*;
use digest::Mac;
use hkdf::hmac::SimpleHmac;
use hkdf::SimpleHkdf;
use sha2::{Sha256, Sha512};

verus! {

/// The hash functions available to the hash-based constructions.
#[derive(Debug, Clone, Copy, PartialEq, Eq, Structural)]
pub enum HashKind {
    Sha256,
    Sha512,
}

/// Output length in bytes of the hash function.
pub open spec fn hash_len(h: HashKind) -> nat {
    match h {
        HashKind::Sha256 => 32,
        HashKind::Sha512 => 64,
    }
}

/// Longest output HKDF-Expand gives over `h`: 255 hash outputs.
pub open spec fn hkdf_max_len(h: HashKind) -> nat {
    255 * hash_len(h)
}

/// HKDF-Extract over SHA-256: the pseudorandom key for `salt` and `ikm`.
pub uninterp spec fn hkdf_sha256_prk_of(salt: Seq<u8>, ikm: Seq<u8>) -> Seq<u8>;

/// HKDF-Extract over SHA-512: the pseudorandom key for `salt` and `ikm`.
pub uninterp spec fn hkdf_sha512_prk_of(salt: Seq<u8>, ikm: Seq<u8>) -> Seq<u8>;

/// HKDF-Expand over SHA-256: `len` bytes of output for `prk` and `info`.
pub uninterp spec fn hkdf_sha256_okm_of(prk: Seq<u8>, info: Seq<u8>, len: nat) -> Seq<u8>;

/// HKDF-Expand over SHA-512: `len` bytes of output for `prk` and `info`.
pub uninterp spec fn hkdf_sha512_okm_of(prk: Seq<u8>, info: Seq<u8>, len: nat) -> Seq<u8>;

/// HMAC-SHA-256 of `data` under `key`.
pub uninterp spec fn hmac_sha256_of(key: Seq<u8>, data: Seq<u8>) -> Seq<u8>;

/// HMAC-SHA-512 of `data` under `key`.
pub uninterp spec fn hmac_sha512_of(key: Seq<u8>, data: Seq<u8>) -> Seq<u8>;

/// HKDF-Extract over `h`; one hash output long.
pub open spec fn hkdf_prk(h: HashKind, salt: Seq<u8>, ikm: Seq<u8>) -> Seq<u8> {
    Seq::new(
        hash_len(h),
        |i: int|
            match h {
                HashKind::Sha256 => hkdf_sha256_prk_of(salt, ikm)[i],
                HashKind::Sha512 => hkdf_sha512_prk_of(salt, ikm)[i],
            },
    )
}

/// HKDF-Expand over `h`; `len` bytes long.
pub open spec fn hkdf_okm(h: HashKind, prk: Seq<u8>, info: Seq<u8>, len: nat) -> Seq<u8> {
    Seq::new(
        len,
        |i: int|
            match h {
                HashKind::Sha256 => hkdf_sha256_okm_of(prk, info, len)[i],
                HashKind::Sha512 => hkdf_sha512_okm_of(prk, info, len)[i],
            },
    )
}

/// HMAC over `h`; one hash output long.
pub open spec fn hmac(h: HashKind, key: Seq<u8>, data: Seq<u8>) -> Seq<u8> {
    Seq::new(
        hash_len(h),
        |i: int|
            match h {
                HashKind::Sha256 => hmac_sha256_of(key, data)[i],
                HashKind::Sha512 => hmac_sha512_of(key, data)[i],
            },
    )
}

/// Relies on hkdf's `Hkdf::extract` over SHA-256: the pseudorandom key, one
/// SHA-256 output (32 bytes) long.
#[verifier::external_body]
fn hkdf_sha256_extract(salt: &[u8], ikm: &[u8]) -> (r: Vec<u8>)
    ensures
        r@ == hkdf_sha256_prk_of(salt@, ikm@),
        r@.len() == 32,
{
    SimpleHkdf::<Sha256>::extract(Some(salt), ikm).0.to_vec()
}

/// Relies on hkdf's `Hkdf::extract` over SHA-512: the pseudorandom key, one
/// SHA-512 output (64 bytes) long.
#[verifier::external_body]
fn hkdf_sha512_extract(salt: &[u8], ikm: &[u8]) -> (r: Vec<u8>)
    ensures
        r@ == hkdf_sha512_prk_of(salt@, ikm@),
        r@.len() == 64,
{
    SimpleHkdf::<Sha512>::extract(Some(salt), ikm).0.to_vec()
}

/// Relies on hkdf's `Hkdf::from_prk` and `Hkdf::expand_multi_info` over SHA-256:
/// `from_prk` takes a key of at least one hash output; the expansion with the
/// info components `a`, `b` is that with info `a || b`, and fails exactly when
/// more than 255 hash outputs are asked for.
#[verifier::external_body]
fn hkdf_sha256_expand(prk: &[u8], a: &[u8], b: &[u8], len: usize) -> (r: Option<Vec<u8>>)
    requires
        prk@.len() >= 32,
    ensures
        r is None <==> len > 255 * 32,
        r matches Some(okm) ==> okm@ == hkdf_sha256_okm_of(prk@, a@ + b@, len as nat),
        r matches Some(okm) ==> okm@.len() == len,
{
    SimpleHkdf::<Sha256>::from_prk(prk).ok().and_then(|hk| {
        let mut okm = vec![0u8; len];
        hk.expand_multi_info(&[a, b], &mut okm).ok().map(|_| okm)
    })
}

/// Relies on hkdf's `Hkdf::from_prk` and `Hkdf::expand_multi_info` over SHA-512,
/// as for SHA-256.
#[verifier::external_body]
fn hkdf_sha512_expand(prk: &[u8], a: &[u8], b: &[u8], len: usize) -> (r: Option<Vec<u8>>)
    requires
        prk@.len() >= 64,
    ensures
        r is None <==> len > 255 * 64,
        r matches Some(okm) ==> okm@ == hkdf_sha512_okm_of(prk@, a@ + b@, len as nat),
        r matches Some(okm) ==> okm@.len() == len,
{
    SimpleHkdf::<Sha512>::from_prk(prk).ok().and_then(|hk| {
        let mut okm = vec![0u8; len];
        hk.expand_multi_info(&[a, b], &mut okm).ok().map(|_| okm)
    })
}

/// Relies on hmac's `SimpleHmac<Sha256>` (`new_from_slice`, which takes a key of
/// any length, then `update` with `a` and `b`, then `finalize`): the MAC of
/// `a || b`, one SHA-256 output long.
#[verifier::external_body]
fn hmac_sha256(key: &[u8], a: &[u8], b: &[u8]) -> (r: Option<Vec<u8>>)
    ensures
        r is Some,
        r matches Some(t) ==> t@ == hmac_sha256_of(key@, a@ + b@),
        r matches Some(t) ==> t@.len() == 32,
{
    <SimpleHmac<Sha256> as Mac>::new_from_slice(key).ok().map(|mut mac| {
        mac.update(a);
        mac.update(b);
        mac.finalize().into_bytes().to_vec()
    })
}

/// Relies on hmac's `SimpleHmac<Sha512>`, as for SHA-256: the MAC of `a || b`,
/// one SHA-512 output long.
#[verifier::external_body]
fn hmac_sha512(key: &[u8], a: &[u8], b: &[u8]) -> (r: Option<Vec<u8>>)
    ensures
        r is Some,
        r matches Some(t) ==> t@ == hmac_sha512_of(key@, a@ + b@),
        r matches Some(t) ==> t@.len() == 64,
{
    <SimpleHmac<Sha512> as Mac>::new_from_slice(key).ok().map(|mut mac| {
        mac.update(a);
        mac.update(b);
        mac.finalize().into_bytes().to_vec()
    })
}

/// Output length in bytes of the hash function.
pub fn output_size(h: HashKind) -> (r: usize)
    ensures
        r == hash_len(h),
{
    match h {
        HashKind::Sha256 => 32,
        HashKind::Sha512 => 64,
    }
}

/// HKDF-Extract over `h` with the given salt.
pub fn hkdf_extract(h: HashKind, salt: &[u8], ikm: &[u8]) -> (r: Vec<u8>)
    ensures
        r@ == hkdf_prk(h, salt@, ikm@),
{
    let r = match h {
        HashKind::Sha256 => hkdf_sha256_extract(salt, ikm),
        HashKind::Sha512 => hkdf_sha512_extract(salt, ikm),
    };
    assert(r@ =~= hkdf_prk(h, salt@, ikm@));
    r
}

/// HKDF-Expand over `h` of `len` bytes, with info `a || b`. Gives nothing when
/// more than 255 hash outputs are asked for.
pub fn hkdf_expand(h: HashKind, prk: &[u8], a: &[u8], b: &[u8], len: usize) -> (r: Option<
    Vec<u8>,
>)
    requires
        prk@.len() == hash_len(h),
    ensures
        r is None <==> len > hkdf_max_len(h),
        r matches Some(okm) ==> okm@ == hkdf_okm(h, prk@, a@ + b@, len as nat),
{
    let r = match h {
        HashKind::Sha256 => hkdf_sha256_expand(prk, a, b, len),
        HashKind::Sha512 => hkdf_sha512_expand(prk, a, b, len),
    };
    match r {
        Some(okm) => {
            assert(okm@ =~= hkdf_okm(h, prk@, a@ + b@, len as nat));
            Some(okm)
        },
        None => None,
    }
}

/// HMAC over `h` of `a || b` under `key`.
pub fn mac(h: HashKind, key: &[u8], a: &[u8], b: &[u8]) -> (r: Option<Vec<u8>>)
    ensures
        r is Some,
        r matches Some(t) ==> t@ == hmac(h, key@, a@ + b@),
{
    let r = match h {
        HashKind::Sha256 => hmac_sha256(key, a, b),
        HashKind::Sha512 => hmac_sha512(key, a, b),
    };
    match r {
        Some(t) => {
            assert(t@ =~= hmac(h, key@, a@ + b@));
            Some(t)
        },
        None => None,
    }
}

} // verus!
