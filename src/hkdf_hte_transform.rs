//! The HtE transform with HKDF key derivation: a context-committing AEAD over
//! UtC-AES-GCM.
//!
//! `prk = HKDF-Extract(salt = "HkdfHte", ikm = K)`. A message with nonce N and
//! associated data A is encrypted by UtC under `HKDF-Expand(prk, N || A, |K|)`,
//! with empty associated data: A is bound through the key alone. A 16-byte key
//! uses UtC over AES-128-GCM and SHA-256, a 32-byte key UtC over AES-256-GCM
//! and SHA-512.
use vstd::prelude::*;
use crate::block_cipher::{is_aes_key_len, BLOCK_SIZE};
use crate::bytes::wipe;
use crate::committing_prf::NONCE_SIZE;
use crate::error::{AeadError, ConfigError};
use crate::gcm::P_MAX;
use crate::hash::{hkdf_expand, hkdf_extract, hkdf_okm, hkdf_prk, HashKind};
use crate::utc_transform::{
    lemma_utc_round_trip, utc_ciphertext, utc_decrypt_once, utc_encrypt_once, utc_open, utc_tag,
    utc_tag_size,
};
use vstd::pervasive::unreached;

verus! {

/// The extraction salt, the bytes of "HkdfHte".
pub open spec fn hkdf_hte_salt() -> Seq<u8> {
    seq![0x48u8, 0x6b, 0x64, 0x66, 0x48, 0x74, 0x65]
}

/// The hash paired with a key of `key_len` bytes.
pub open spec fn hte_hash(key_len: nat) -> HashKind {
    if key_len == 16 {
        HashKind::Sha256
    } else {
        HashKind::Sha512
    }
}

/// The UtC key for one message: HKDF-Expand of `nonce || aad`, as long as `key`.
pub open spec fn hkdf_hte_key(key: Seq<u8>, nonce: Seq<u8>, aad: Seq<u8>) -> Seq<u8> {
    let h = hte_hash(key.len());
    hkdf_okm(h, hkdf_prk(h, hkdf_hte_salt(), key), nonce + aad, key.len())
}

/// The ciphertext of `pt`.
pub open spec fn hkdf_hte_ciphertext(key: Seq<u8>, nonce: Seq<u8>, aad: Seq<u8>, pt: Seq<u8>) -> Seq<
    u8,
> {
    utc_ciphertext(hkdf_hte_key(key, nonce, aad), nonce, pt)
}

/// The tag of `pt`.
pub open spec fn hkdf_hte_tag(key: Seq<u8>, nonce: Seq<u8>, aad: Seq<u8>, pt: Seq<u8>) -> Seq<u8> {
    utc_tag(hkdf_hte_key(key, nonce, aad), nonce, Seq::empty(), pt)
}

/// Decryption: the plaintext when the tag checks under the derived key.
pub open spec fn hkdf_hte_open(
    key: Seq<u8>,
    nonce: Seq<u8>,
    aad: Seq<u8>,
    ct: Seq<u8>,
    tag: Seq<u8>,
) -> Option<Seq<u8>> {
    utc_open(hkdf_hte_key(key, nonce, aad), nonce, Seq::empty(), ct, tag)
}

/// Decrypting what HKDF-HtE encryption produced gives back the plaintext.
pub proof fn lemma_hkdf_hte_round_trip(key: Seq<u8>, nonce: Seq<u8>, aad: Seq<u8>, pt: Seq<u8>)
    requires
        is_aes_key_len(key.len()),
        pt.len() <= P_MAX,
    ensures
        hkdf_hte_open(key, nonce, aad, hkdf_hte_ciphertext(key, nonce, aad, pt), hkdf_hte_tag(
            key,
            nonce,
            aad,
            pt,
        )) == Some(pt),
{
    lemma_utc_round_trip(hkdf_hte_key(key, nonce, aad), nonce, Seq::empty(), pt);
}

/// HtE over UtC-AES-GCM with HKDF. Keeps the pseudorandom key, not the key
/// itself; the key stands in its view.
pub struct HkdfHte {
    hash: HashKind,
    prk: Vec<u8>,
    key_len: usize,
    key: Ghost<Seq<u8>>,
}

impl View for HkdfHte {
    type V = Seq<u8>;

    closed spec fn view(&self) -> Seq<u8> {
        self.key@
    }
}

impl HkdfHte {
    /// The pseudorandom key was extracted from an AES-128 or AES-256 key.
    pub closed spec fn well_formed(&self) -> bool {
        &&& is_aes_key_len(self.key@.len())
        &&& self.key_len == self.key@.len()
        &&& self.hash == hte_hash(self.key@.len())
        &&& self.prk@ == hkdf_prk(self.hash, hkdf_hte_salt(), self.key@)
    }

    /// Builds the transform from its key, which must suit the inner UtC: a key
    /// that is not a whole number of AES blocks is refused with
    /// `KeySizeNotBlockMultiple`, any length other than 16 and 32 bytes with
    /// `UnsupportedKeySize`.
    pub fn new(key: &[u8]) -> (r: Result<HkdfHte, ConfigError>)
        ensures
            key@.len() % (BLOCK_SIZE as nat) != 0 <==> r == Err::<HkdfHte, ConfigError>(
                ConfigError::KeySizeNotBlockMultiple,
            ),
            r matches Ok(e) <==> is_aes_key_len(key@.len()),
            r matches Ok(e) ==> e@ == key@ && e.well_formed(),
            r == Err::<HkdfHte, ConfigError>(ConfigError::UnsupportedKeySize) <==> (key@.len()
                % (BLOCK_SIZE as nat) == 0 && !is_aes_key_len(key@.len())),
    {
        if key.len() % BLOCK_SIZE != 0 {
            return Err(ConfigError::KeySizeNotBlockMultiple);
        }
        if key.len() != 16 && key.len() != 32 {
            return Err(ConfigError::UnsupportedKeySize);
        }
        let hash = if key.len() == 16 {
            HashKind::Sha256
        } else {
            HashKind::Sha512
        };
        let salt: Vec<u8> = vec![0x48u8, 0x6b, 0x64, 0x66, 0x48, 0x74, 0x65];
        assert(salt@ =~= hkdf_hte_salt());
        let prk = hkdf_extract(hash, salt.as_slice(), key);
        Ok(HkdfHte { hash, prk, key_len: key.len(), key: Ghost(key@) })
    }

    /// Overwrites the pseudorandom key with zeros and drops it; the transform is
    /// unusable after.
    pub fn zeroize(&mut self)
        ensures
            !final(self).well_formed(),
    {
        wipe(&mut self.prk);
    }

    /// Length in bytes of the key.
    pub fn key_size(&self) -> (r: usize)
        requires
            self.well_formed(),
        ensures
            r == self@.len(),
    {
        self.key_len
    }

    /// Length in bytes of a tag: that of the inner UtC.
    pub fn tag_size(&self) -> (r: usize)
        requires
            self.well_formed(),
        ensures
            r == utc_tag_size(self@.len()),
    {
        16 + 2 * self.key_len
    }

    /// The UtC key for `nonce` and `aad`.
    fn derive_key(&self, nonce: &[u8], aad: &[u8]) -> (r: Vec<u8>)
        requires
            self.well_formed(),
        ensures
            r@ == hkdf_hte_key(self@, nonce@, aad@),
            r@.len() == self@.len(),
    {
        match hkdf_expand(self.hash, self.prk.as_slice(), nonce, aad, self.key_len) {
            Some(k) => k,
            None => unreached(),
        }
    }

    /// Encrypts `buffer` in place and returns the tag. Fails, leaving the buffer
    /// as it was, exactly when the plaintext is longer than AES-GCM allows.
    pub fn encrypt_in_place_detached(&self, nonce: &[u8], aad: &[u8], buffer: &mut [u8]) -> (r:
        Result<Vec<u8>, AeadError>)
        requires
            self.well_formed(),
            nonce@.len() == NONCE_SIZE,
        ensures
            r is Ok <==> old(buffer)@.len() <= P_MAX,
            r is Err ==> final(buffer)@ == old(buffer)@,
            r is Ok ==> final(buffer)@ == hkdf_hte_ciphertext(self@, nonce@, aad@, old(buffer)@),
            r matches Ok(t) ==> t@ == hkdf_hte_tag(self@, nonce@, aad@, old(buffer)@),
    {
        let mut enc_key = self.derive_key(nonce, aad);
        let r = utc_encrypt_once(enc_key.as_slice(), nonce, buffer);
        wipe(&mut enc_key);
        r
    }

    /// Decrypts `buffer` in place. Succeeds exactly when `hkdf_hte_open` gives a
    /// plaintext, which is then in the buffer; on failure the buffer holds the
    /// ciphertext it held on entry.
    pub fn decrypt_in_place_detached(
        &self,
        nonce: &[u8],
        aad: &[u8],
        buffer: &mut [u8],
        tag: &[u8],
    ) -> (r: Result<(), AeadError>)
        requires
            self.well_formed(),
            nonce@.len() == NONCE_SIZE,
        ensures
            r is Ok <==> hkdf_hte_open(self@, nonce@, aad@, old(buffer)@, tag@) is Some,
            r is Ok ==> Some(final(buffer)@) == hkdf_hte_open(
                self@,
                nonce@,
                aad@,
                old(buffer)@,
                tag@,
            ),
            r is Err ==> final(buffer)@ == old(buffer)@,
    {
        let mut enc_key = self.derive_key(nonce, aad);
        let r = utc_decrypt_once(enc_key.as_slice(), nonce, buffer, tag);
        wipe(&mut enc_key);
        r
    }
}

} // verus!
