//! The UtC transform over AES-GCM: a key-committing AEAD.
//!
//! For each nonce the CX PRF gives a commitment and a mask. The mask is the
//! AES-GCM key for the message, and the commitment is appended to the GCM tag:
//! the packed tag is `gcm_tag || commitment`.
use vstd::prelude::*;
use crate::block_cipher::{is_aes_key_len, BLOCK_SIZE};
use crate::bytes::{ct_eq, wipe};
use crate::committing_prf::{CommittingPrf, NONCE_SIZE};
use crate::cx_prf::{cx_com, cx_mask, lemma_cx_sizes, CxPrf};
use crate::error::{AeadError, ConfigError};
use crate::gcm::{
    gcm_apply, gcm_decrypt, gcm_encrypt, gcm_tag, lemma_gcm_apply_twice, A_MAX, GCM_TAG_SIZE,
    P_MAX,
};
use vstd::pervasive::unreached;
use vstd::slice::slice_to_vec;

verus! {

/// Length of a packed tag for a key of `key_len` bytes: the GCM tag, then a
/// commitment twice as long as the key.
pub open spec fn utc_tag_size(key_len: nat) -> nat {
    GCM_TAG_SIZE as nat + 2 * key_len
}

/// The packed tag: the base tag followed by the commitment.
pub open spec fn packed_tag(base_tag: Seq<u8>, com: Seq<u8>) -> Seq<u8> {
    base_tag + com
}

/// The base-tag part of a packed tag.
pub open spec fn base_tag_part(tag: Seq<u8>) -> Seq<u8> {
    tag.take(GCM_TAG_SIZE as int)
}

/// The commitment part of a packed tag.
pub open spec fn com_part(tag: Seq<u8>) -> Seq<u8> {
    tag.skip(GCM_TAG_SIZE as int)
}

/// Inputs that UtC encryption accepts: those AES-GCM accepts.
pub open spec fn utc_accepts(pt_len: nat, aad_len: nat) -> bool {
    pt_len <= P_MAX && aad_len <= A_MAX
}

/// The UtC ciphertext of `pt`: GCM under the mask for `nonce`.
pub open spec fn utc_ciphertext(key: Seq<u8>, nonce: Seq<u8>, pt: Seq<u8>) -> Seq<u8> {
    gcm_apply(cx_mask(key, nonce), nonce, pt)
}

/// The UtC tag of `pt`: the GCM tag under the mask, then the commitment.
pub open spec fn utc_tag(key: Seq<u8>, nonce: Seq<u8>, aad: Seq<u8>, pt: Seq<u8>) -> Seq<u8> {
    packed_tag(
        gcm_tag(cx_mask(key, nonce), nonce, aad, utc_ciphertext(key, nonce, pt)),
        cx_com(key, nonce),
    )
}

/// UtC decryption: the plaintext when the tag has the right length, its GCM part
/// authenticates `aad` and `ct` under the mask for `nonce`, and its commitment
/// part is the commitment for `nonce`; nothing otherwise.
pub open spec fn utc_open(key: Seq<u8>, nonce: Seq<u8>, aad: Seq<u8>, ct: Seq<u8>, tag: Seq<u8>) -> Option<
    Seq<u8>,
> {
    let mask = cx_mask(key, nonce);
    if ct.len() <= P_MAX && aad.len() <= A_MAX && tag.len() == utc_tag_size(key.len())
        && base_tag_part(tag) == gcm_tag(mask, nonce, aad, ct) && com_part(tag) == cx_com(
        key,
        nonce,
    ) {
        Some(gcm_apply(mask, nonce, ct))
    } else {
        None
    }
}

/// A packed tag is as long as the base tag and the commitment together, and
/// unpacking it gives back exactly the base tag and the commitment.
pub proof fn lemma_pack_unpack(base_tag: Seq<u8>, com: Seq<u8>)
    requires
        base_tag.len() == GCM_TAG_SIZE,
    ensures
        packed_tag(base_tag, com).len() == base_tag.len() + com.len(),
        base_tag_part(packed_tag(base_tag, com)) == base_tag,
        com_part(packed_tag(base_tag, com)) == com,
{
    assert(base_tag_part(packed_tag(base_tag, com)) =~= base_tag);
    assert(com_part(packed_tag(base_tag, com)) =~= com);
}

/// The UtC tag for a key of `key.len()` bytes is `utc_tag_size(key.len())` long:
/// the GCM tag, then a commitment twice as long as the mask.
pub proof fn lemma_utc_tag_len(key: Seq<u8>, nonce: Seq<u8>, aad: Seq<u8>, pt: Seq<u8>)
    requires
        is_aes_key_len(key.len()),
    ensures
        utc_tag(key, nonce, aad, pt).len() == utc_tag_size(key.len()),
        utc_ciphertext(key, nonce, pt).len() == pt.len(),
{
    lemma_cx_sizes(key, nonce);
}

/// Decrypting what UtC encryption produced gives back the plaintext, for every
/// key, nonce, associated data and plaintext that encryption accepts.
pub proof fn lemma_utc_round_trip(key: Seq<u8>, nonce: Seq<u8>, aad: Seq<u8>, pt: Seq<u8>)
    requires
        is_aes_key_len(key.len()),
        utc_accepts(pt.len(), aad.len()),
    ensures
        utc_open(key, nonce, aad, utc_ciphertext(key, nonce, pt), utc_tag(key, nonce, aad, pt))
            == Some(pt),
{
    let mask = cx_mask(key, nonce);
    let ct = utc_ciphertext(key, nonce, pt);
    lemma_utc_tag_len(key, nonce, aad, pt);
    lemma_pack_unpack(gcm_tag(mask, nonce, aad, ct), cx_com(key, nonce));
    lemma_gcm_apply_twice(mask, nonce, pt);
}

/// If two keys both open the same nonce, associated data, ciphertext and tag,
/// they have the same length and the same CX commitment for that nonce: opening
/// under two distinct keys takes a collision of CX commitments.
pub proof fn lemma_two_key_opening_is_commitment_collision(
    k1: Seq<u8>,
    k2: Seq<u8>,
    nonce: Seq<u8>,
    aad: Seq<u8>,
    ct: Seq<u8>,
    tag: Seq<u8>,
)
    requires
        utc_open(k1, nonce, aad, ct, tag) is Some,
        utc_open(k2, nonce, aad, ct, tag) is Some,
    ensures
        k1.len() == k2.len(),
        cx_com(k1, nonce) == cx_com(k2, nonce),
{
}

/// Packs a base tag and a commitment into one tag, base tag first.
pub fn pack_tag(base_tag: &[u8], com: &[u8]) -> (r: Vec<u8>)
    ensures
        r@ == packed_tag(base_tag@, com@),
{
    let mut r = slice_to_vec(base_tag);
    let mut c = slice_to_vec(com);
    r.append(&mut c);
    r
}

/// Splits a packed tag at the fixed offset into `(base_tag, commitment)`.
pub fn unpack_tag(tag: &[u8]) -> (r: (&[u8], &[u8]))
    requires
        tag@.len() >= GCM_TAG_SIZE,
    ensures
        r.0@ == base_tag_part(tag@),
        r.1@ == com_part(tag@),
{
    tag.split_at(GCM_TAG_SIZE)
}

/// UtC over AES-GCM, with CX over AES as its committing PRF. A 16-byte key gives
/// UtC over AES-128-GCM, a 32-byte key UtC over AES-256-GCM. Its view is the key.
pub struct UtcOverAesGcm {
    prf: CxPrf,
}

impl View for UtcOverAesGcm {
    type V = Seq<u8>;

    closed spec fn view(&self) -> Seq<u8> {
        self.prf@
    }
}

impl UtcOverAesGcm {
    /// The key is an AES-128 or AES-256 key.
    pub open spec fn well_formed(&self) -> bool {
        is_aes_key_len(self@.len())
    }

    /// Builds the transform from its key. A key that is not a whole number of
    /// AES blocks is refused with `KeySizeNotBlockMultiple`, any length other
    /// than 16 and 32 bytes with `UnsupportedKeySize`.
    pub fn new(key: &[u8]) -> (r: Result<UtcOverAesGcm, ConfigError>)
        ensures
            key@.len() % (BLOCK_SIZE as nat) != 0 <==> r == Err::<UtcOverAesGcm, ConfigError>(
                ConfigError::KeySizeNotBlockMultiple,
            ),
            r matches Ok(u) <==> is_aes_key_len(key@.len()),
            r matches Ok(u) ==> u@ == key@ && u.well_formed(),
            r == Err::<UtcOverAesGcm, ConfigError>(ConfigError::UnsupportedKeySize) <==> (
            key@.len() % (BLOCK_SIZE as nat) == 0 && !is_aes_key_len(key@.len())),
    {
        match CxPrf::new(key) {
            Ok(prf) => Ok(UtcOverAesGcm { prf }),
            Err(e) => Err(e),
        }
    }

    /// Overwrites the key with zeros and drops it; the transform is unusable
    /// after.
    pub fn zeroize(&mut self)
        ensures
            final(self)@.len() == 0,
    {
        self.prf.zeroize();
    }

    /// Length in bytes of the key.
    pub fn key_size(&self) -> (r: usize)
        ensures
            r == self@.len(),
    {
        self.prf.key_size()
    }

    /// Length in bytes of a packed tag.
    pub fn tag_size(&self) -> (r: usize)
        requires
            self.well_formed(),
        ensures
            r == utc_tag_size(self@.len()),
    {
        GCM_TAG_SIZE + 2 * self.key_size()
    }

    /// Encrypts `buffer` in place and returns the packed tag. Fails, leaving the
    /// buffer as it was, exactly when AES-GCM refuses the lengths.
    pub fn encrypt_in_place_detached(&self, nonce: &[u8], aad: &[u8], buffer: &mut [u8]) -> (r:
        Result<Vec<u8>, AeadError>)
        requires
            self.well_formed(),
            nonce@.len() == NONCE_SIZE,
        ensures
            r is Ok <==> utc_accepts(old(buffer)@.len(), aad@.len()),
            r is Err ==> final(buffer)@ == old(buffer)@,
            r is Ok ==> final(buffer)@ == utc_ciphertext(self@, nonce@, old(buffer)@),
            r matches Ok(t) ==> t@ == utc_tag(self@, nonce@, aad@, old(buffer)@),
    {
        let (com, mut mask) = self.prf.prf(nonce);
        let r = gcm_encrypt(mask.as_slice(), nonce, aad, buffer);
        wipe(&mut mask);
        match r {
            Ok(base_tag) => Ok(pack_tag(base_tag.as_slice(), com.as_slice())),
            Err(e) => Err(e),
        }
    }

    /// Decrypts `buffer` in place. Succeeds exactly when `utc_open` gives a
    /// plaintext, which is then in the buffer. On failure the buffer holds the
    /// ciphertext it held on entry: when GCM authenticated the buffer but the
    /// commitment did not match, the plaintext is encrypted again before return.
    /// A ciphertext longer than AES-GCM encrypts is refused up front, so that
    /// this restoring encryption always runs.
    pub fn decrypt_in_place_detached(
        &self,
        nonce: &[u8],
        aad: &[u8],
        buffer: &mut [u8],
        tag: &[u8],
    ) -> (r: Result<(), AeadError>)
        requires
            self.well_formed(),
            nonce@.len() == NONCE_SIZE,
        ensures
            r is Ok <==> utc_open(self@, nonce@, aad@, old(buffer)@, tag@) is Some,
            r is Ok ==> Some(final(buffer)@) == utc_open(self@, nonce@, aad@, old(buffer)@, tag@),
            r is Err ==> final(buffer)@ == old(buffer)@,
    {
        if tag.len() != self.tag_size() || buffer.len() as u64 > P_MAX {
            return Err(AeadError);
        }
        let (base_tag, com) = unpack_tag(tag);
        let (expected_com, mut mask) = self.prf.prf(nonce);
        let ghost ct = buffer@;
        let opened = gcm_decrypt(mask.as_slice(), nonce, aad, buffer, base_tag);
        let com_matches = ct_eq(com, expected_com.as_slice());
        // Both checks are combined into one result before any branch, and either
        // failure gives the same error.
        let ok: u8 = (opened as u8) & (com_matches as u8);
        assert(ok == 1 <==> (opened && com_matches)) by (bit_vector)
            requires
                ok == (opened as u8) & (com_matches as u8),
        ;
        if ok == 1 {
            wipe(&mut mask);
            Ok(())
        } else {
            if opened {
                // The buffer holds unauthenticated plaintext: encrypting it again
                // under the same key and nonce restores the ciphertext.
                proof {
                    lemma_gcm_apply_twice(mask@, nonce@, ct);
                }
                let _ = gcm_encrypt(mask.as_slice(), nonce, aad, buffer);
            }
            wipe(&mut mask);
            Err(AeadError)
        }
    }
}

/// UtC encryption under a key used for this one message, with no associated
/// data; the transform built for it is wiped before return.
pub(crate) fn utc_encrypt_once(key: &[u8], nonce: &[u8], buffer: &mut [u8]) -> (r: Result<
    Vec<u8>,
    AeadError,
>)
    requires
        is_aes_key_len(key@.len()),
        nonce@.len() == NONCE_SIZE,
    ensures
        r is Ok <==> old(buffer)@.len() <= P_MAX,
        r is Err ==> final(buffer)@ == old(buffer)@,
        r is Ok ==> final(buffer)@ == utc_ciphertext(key@, nonce@, old(buffer)@),
        r matches Ok(t) ==> t@ == utc_tag(key@, nonce@, Seq::empty(), old(buffer)@),
{
    let mut inner = match UtcOverAesGcm::new(key) {
        Ok(u) => u,
        Err(_) => unreached(),
    };
    let empty: Vec<u8> = Vec::new();
    let r = inner.encrypt_in_place_detached(nonce, empty.as_slice(), buffer);
    inner.zeroize();
    r
}

/// UtC decryption under a key used for this one message, with no associated
/// data; the transform built for it is wiped before return.
pub(crate) fn utc_decrypt_once(key: &[u8], nonce: &[u8], buffer: &mut [u8], tag: &[u8]) -> (r:
    Result<(), AeadError>)
    requires
        is_aes_key_len(key@.len()),
        nonce@.len() == NONCE_SIZE,
    ensures
        r is Ok <==> utc_open(key@, nonce@, Seq::empty(), old(buffer)@, tag@) is Some,
        r is Ok ==> Some(final(buffer)@) == utc_open(
            key@,
            nonce@,
            Seq::empty(),
            old(buffer)@,
            tag@,
        ),
        r is Err ==> final(buffer)@ == old(buffer)@,
{
    let mut inner = match UtcOverAesGcm::new(key) {
        Ok(u) => u,
        Err(_) => unreached(),
    };
    let empty: Vec<u8> = Vec::new();
    let r = inner.decrypt_in_place_detached(nonce, empty.as_slice(), buffer, tag);
    inner.zeroize();
    r
}

} // verus!
