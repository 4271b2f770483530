//! The HtE transform with a MAC for key derivation: a context-committing AEAD
//! over UtC-AES-GCM.
//!
//! A message with nonce N and associated data A is encrypted by UtC, with empty
//! associated data, under the first |K| bytes of `HMAC(K, N || A)`. A 16-byte key
//! uses UtC over AES-128-GCM and HMAC-SHA-256, a 32-byte key UtC over
//! AES-256-GCM and HMAC-SHA-512; each MAC output is at least as long as the key.
use vstd::prelude::*;
use crate::block_cipher::{is_aes_key_len, BLOCK_SIZE};
use crate::bytes::wipe;
use crate::committing_prf::NONCE_SIZE;
use crate::error::{AeadError, ConfigError};
use crate::gcm::P_MAX;
use crate::hash::{hash_len, hmac, mac, HashKind};
use crate::utc_transform::{
    lemma_utc_round_trip, utc_ciphertext, utc_decrypt_once, utc_encrypt_once, utc_open, utc_tag,
    utc_tag_size,
};
use vstd::pervasive::unreached;
use vstd::slice::{slice_subrange, slice_to_vec};

verus! {

/// The MAC's hash for a key of `key_len` bytes.
pub open spec fn mac_hte_hash(key_len: nat) -> HashKind {
    if key_len == 16 {
        HashKind::Sha256
    } else {
        HashKind::Sha512
    }
}

/// The UtC key for one message: the MAC of `nonce || aad`, cut to the key's length.
pub open spec fn mac_hte_key(key: Seq<u8>, nonce: Seq<u8>, aad: Seq<u8>) -> Seq<u8> {
    hmac(mac_hte_hash(key.len()), key, nonce + aad).take(key.len() as int)
}

/// The ciphertext of `pt`.
pub open spec fn mac_hte_ciphertext(key: Seq<u8>, nonce: Seq<u8>, aad: Seq<u8>, pt: Seq<u8>) -> Seq<
    u8,
> {
    utc_ciphertext(mac_hte_key(key, nonce, aad), nonce, pt)
}

/// The tag of `pt`.
pub open spec fn mac_hte_tag(key: Seq<u8>, nonce: Seq<u8>, aad: Seq<u8>, pt: Seq<u8>) -> Seq<u8> {
    utc_tag(mac_hte_key(key, nonce, aad), nonce, Seq::empty(), pt)
}

/// Decryption: the plaintext when the tag checks under the derived key.
pub open spec fn mac_hte_open(
    key: Seq<u8>,
    nonce: Seq<u8>,
    aad: Seq<u8>,
    ct: Seq<u8>,
    tag: Seq<u8>,
) -> Option<Seq<u8>> {
    utc_open(mac_hte_key(key, nonce, aad), nonce, Seq::empty(), ct, tag)
}

/// For every key length the transform takes, the MAC's output is at least as
/// long as the key, so the cut key is a full AES key.
pub proof fn lemma_mac_output_covers_key(key_len: nat)
    requires
        is_aes_key_len(key_len),
    ensures
        hash_len(mac_hte_hash(key_len)) >= key_len,
{
}

/// Decrypting what MAC-HtE encryption produced gives back the plaintext.
pub proof fn lemma_mac_hte_round_trip(key: Seq<u8>, nonce: Seq<u8>, aad: Seq<u8>, pt: Seq<u8>)
    requires
        is_aes_key_len(key.len()),
        pt.len() <= P_MAX,
    ensures
        mac_hte_open(key, nonce, aad, mac_hte_ciphertext(key, nonce, aad, pt), mac_hte_tag(
            key,
            nonce,
            aad,
            pt,
        )) == Some(pt),
{
    lemma_mac_output_covers_key(key.len());
    lemma_utc_round_trip(mac_hte_key(key, nonce, aad), nonce, Seq::empty(), pt);
}

/// HtE over UtC-AES-GCM with HMAC. It keeps the key as the MAC key; its view is
/// that key.
pub struct MacHte {
    mac_key: Vec<u8>,
}

impl View for MacHte {
    type V = Seq<u8>;

    closed spec fn view(&self) -> Seq<u8> {
        self.mac_key@
    }
}

impl MacHte {
    /// The key is an AES-128 or AES-256 key.
    pub open spec fn well_formed(&self) -> bool {
        is_aes_key_len(self@.len())
    }

    /// Builds the transform from its key, which must suit the inner UtC: a key
    /// that is not a whole number of AES blocks is refused with
    /// `KeySizeNotBlockMultiple`, any length other than 16 and 32 bytes with
    /// `UnsupportedKeySize`.
    pub fn new(key: &[u8]) -> (r: Result<MacHte, ConfigError>)
        ensures
            key@.len() % (BLOCK_SIZE as nat) != 0 <==> r == Err::<MacHte, ConfigError>(
                ConfigError::KeySizeNotBlockMultiple,
            ),
            r matches Ok(e) <==> is_aes_key_len(key@.len()),
            r matches Ok(e) ==> e@ == key@ && e.well_formed(),
            r == Err::<MacHte, ConfigError>(ConfigError::UnsupportedKeySize) <==> (key@.len()
                % (BLOCK_SIZE as nat) == 0 && !is_aes_key_len(key@.len())),
    {
        if key.len() % BLOCK_SIZE != 0 {
            return Err(ConfigError::KeySizeNotBlockMultiple);
        }
        if key.len() != 16 && key.len() != 32 {
            return Err(ConfigError::UnsupportedKeySize);
        }
        Ok(MacHte { mac_key: slice_to_vec(key) })
    }

    /// Overwrites the key with zeros and drops it; the transform is unusable
    /// after.
    pub fn zeroize(&mut self)
        ensures
            final(self)@.len() == 0,
    {
        wipe(&mut self.mac_key);
    }

    /// Length in bytes of the key.
    pub fn key_size(&self) -> (r: usize)
        ensures
            r == self@.len(),
    {
        self.mac_key.len()
    }

    /// Length in bytes of a tag: that of the inner UtC.
    pub fn tag_size(&self) -> (r: usize)
        requires
            self.well_formed(),
        ensures
            r == utc_tag_size(self@.len()),
    {
        16 + 2 * self.mac_key.len()
    }

    /// The UtC key for `nonce` and `aad`.
    fn derive_key(&self, nonce: &[u8], aad: &[u8]) -> (r: Vec<u8>)
        requires
            self.well_formed(),
        ensures
            r@ == mac_hte_key(self@, nonce@, aad@),
            r@.len() == self@.len(),
    {
        let h = if self.mac_key.len() == 16 {
            HashKind::Sha256
        } else {
            HashKind::Sha512
        };
        let mut digest = match mac(h, self.mac_key.as_slice(), nonce, aad) {
            Some(d) => d,
            None => unreached(),
        };
        let n = self.mac_key.len();
        let k = slice_to_vec(slice_subrange(digest.as_slice(), 0, n));
        wipe(&mut digest);
        assert(k@ =~= mac_hte_key(self@, nonce@, aad@));
        k
    }

    /// Encrypts `buffer` in place and returns the tag. Fails, leaving the buffer
    /// as it was, exactly when the plaintext is longer than AES-GCM allows.
    pub fn encrypt_in_place_detached(&self, nonce: &[u8], aad: &[u8], buffer: &mut [u8]) -> (r:
        Result<Vec<u8>, AeadError>)
        requires
            self.well_formed(),
            nonce@.len() == NONCE_SIZE,
        ensures
            r is Ok <==> old(buffer)@.len() <= P_MAX,
            r is Err ==> final(buffer)@ == old(buffer)@,
            r is Ok ==> final(buffer)@ == mac_hte_ciphertext(self@, nonce@, aad@, old(buffer)@),
            r matches Ok(t) ==> t@ == mac_hte_tag(self@, nonce@, aad@, old(buffer)@),
    {
        let mut enc_key = self.derive_key(nonce, aad);
        let r = utc_encrypt_once(enc_key.as_slice(), nonce, buffer);
        wipe(&mut enc_key);
        r
    }

    /// Decrypts `buffer` in place. Succeeds exactly when `mac_hte_open` gives a
    /// plaintext, which is then in the buffer; on failure the buffer holds the
    /// ciphertext it held on entry.
    pub fn decrypt_in_place_detached(
        &self,
        nonce: &[u8],
        aad: &[u8],
        buffer: &mut [u8],
        tag: &[u8],
    ) -> (r: Result<(), AeadError>)
        requires
            self.well_formed(),
            nonce@.len() == NONCE_SIZE,
        ensures
            r is Ok <==> mac_hte_open(self@, nonce@, aad@, old(buffer)@, tag@) is Some,
            r is Ok ==> Some(final(buffer)@) == mac_hte_open(
                self@,
                nonce@,
                aad@,
                old(buffer)@,
                tag@,
            ),
            r is Err ==> final(buffer)@ == old(buffer)@,
    {
        let mut enc_key = self.derive_key(nonce, aad);
        let r = utc_decrypt_once(enc_key.as_slice(), nonce, buffer, tag);
        wipe(&mut enc_key);
        r
    }
}

} // verus!
