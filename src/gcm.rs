//! AES-GCM, the base AEAD under the UtC transform.
//!
//! GCM encrypts by XORing a keystream that depends on the key and the nonce into
//! the buffer, and authenticates the associated data and the ciphertext with a
//! 16-byte tag. Decryption recomputes that tag over the ciphertext and, only when
//! it matches, XORs the same keystream back in; otherwise the buffer is left alone.
use vstd::prelude::*;
use crate::bytes::{lemma_xor_involution, xor_bytes};
use crate::committing_prf::NONCE_SIZE;
use crate::error::AeadError;
use aead::generic_array::GenericArray;
use aead::{AeadInPlace, KeyInit};

verus! {

/// Size in bytes of a GCM tag.
pub const GCM_TAG_SIZE: usize = 16;

/// Largest plaintext that GCM encrypts, in bytes.
pub const P_MAX: u64 = 68719476736;

/// Largest associated data that GCM takes, in bytes.
pub const A_MAX: u64 = 68719476736;

/// Largest ciphertext that GCM decrypts, in bytes.
pub const C_MAX: u64 = 68719476752;

#[verifier::external_type_specification]
#[verifier::external_body]
pub struct ExAeadError(aead::Error);

/// The GCM keystream under `key` and `nonce` that covers `len` bytes.
pub uninterp spec fn gcm_keystream(key: Seq<u8>, nonce: Seq<u8>, len: nat) -> Seq<u8>;

/// The GCM authentication tag of ciphertext `ct` with associated data `aad`.
pub uninterp spec fn gcm_tag_of(key: Seq<u8>, nonce: Seq<u8>, aad: Seq<u8>, ct: Seq<u8>) -> Seq<u8>;

/// The 16 tag bytes GCM gives for `ct` and `aad`.
pub open spec fn gcm_tag(key: Seq<u8>, nonce: Seq<u8>, aad: Seq<u8>, ct: Seq<u8>) -> Seq<u8> {
    Seq::new(GCM_TAG_SIZE as nat, |i: int| gcm_tag_of(key, nonce, aad, ct)[i])
}

/// What GCM turns `buf` into: the buffer XORed with the keystream. Applied to a
/// plaintext it encrypts, applied to a ciphertext it decrypts.
pub open spec fn gcm_apply(key: Seq<u8>, nonce: Seq<u8>, buf: Seq<u8>) -> Seq<u8> {
    xor_bytes(buf, gcm_keystream(key, nonce, buf.len()))
}

/// Applying the keystream twice gives the buffer back.
pub proof fn lemma_gcm_apply_twice(key: Seq<u8>, nonce: Seq<u8>, buf: Seq<u8>)
    ensures
        gcm_apply(key, nonce, gcm_apply(key, nonce, buf)) == buf,
{
    lemma_xor_involution(buf, gcm_keystream(key, nonce, buf.len()));
}

/// Key lengths of the GCM variants used here (AES-128-GCM and AES-256-GCM).
pub open spec fn is_gcm_key_len(n: nat) -> bool {
    n == 16 || n == 32
}

/// Relies on aes-gcm's `AeadInPlace::encrypt_in_place_detached` for `Aes128Gcm`:
/// refuses a buffer over `P_MAX` or associated data over `A_MAX` before touching
/// anything; otherwise XORs the keystream into the buffer and returns the tag
/// over the associated data and the ciphertext.
#[verifier::external_body]
fn aes128_gcm_encrypt(key: &[u8], nonce: &[u8], aad: &[u8], buffer: &mut [u8]) -> (r: Result<
    Vec<u8>,
    aead::Error,
>)
    requires
        key@.len() == 16,
        nonce@.len() == NONCE_SIZE,
    ensures
        r is Err <==> (old(buffer)@.len() > P_MAX || aad@.len() > A_MAX),
        r is Err ==> final(buffer)@ == old(buffer)@,
        r is Ok ==> final(buffer)@ == xor_bytes(
            old(buffer)@,
            gcm_keystream(key@, nonce@, old(buffer)@.len()),
        ),
        r matches Ok(t) ==> t@ == gcm_tag_of(key@, nonce@, aad@, final(buffer)@),
        r matches Ok(t) ==> t@.len() == GCM_TAG_SIZE,
{
    let cipher = aes_gcm::Aes128Gcm::new(GenericArray::from_slice(key));
    cipher.encrypt_in_place_detached(GenericArray::from_slice(nonce), aad, buffer).map(|t| t.to_vec())
}

/// Relies on aes-gcm's `AeadInPlace::encrypt_in_place_detached` for `Aes256Gcm`,
/// as for the 128-bit variant.
#[verifier::external_body]
fn aes256_gcm_encrypt(key: &[u8], nonce: &[u8], aad: &[u8], buffer: &mut [u8]) -> (r: Result<
    Vec<u8>,
    aead::Error,
>)
    requires
        key@.len() == 32,
        nonce@.len() == NONCE_SIZE,
    ensures
        r is Err <==> (old(buffer)@.len() > P_MAX || aad@.len() > A_MAX),
        r is Err ==> final(buffer)@ == old(buffer)@,
        r is Ok ==> final(buffer)@ == xor_bytes(
            old(buffer)@,
            gcm_keystream(key@, nonce@, old(buffer)@.len()),
        ),
        r matches Ok(t) ==> t@ == gcm_tag_of(key@, nonce@, aad@, final(buffer)@),
        r matches Ok(t) ==> t@.len() == GCM_TAG_SIZE,
{
    let cipher = aes_gcm::Aes256Gcm::new(GenericArray::from_slice(key));
    cipher.encrypt_in_place_detached(GenericArray::from_slice(nonce), aad, buffer).map(|t| t.to_vec())
}

/// Relies on aes-gcm's `AeadInPlace::decrypt_in_place_detached` for `Aes128Gcm`:
/// refuses a buffer over `C_MAX` or associated data over `A_MAX`; otherwise
/// compares the tag over the associated data and the buffer with `tag` in
/// constant time and, only on a match, XORs the keystream into the buffer.
#[verifier::external_body]
fn aes128_gcm_decrypt(key: &[u8], nonce: &[u8], aad: &[u8], buffer: &mut [u8], tag: &[u8]) -> (r:
    Result<(), aead::Error>)
    requires
        key@.len() == 16,
        nonce@.len() == NONCE_SIZE,
        tag@.len() == GCM_TAG_SIZE,
    ensures
        r is Ok <==> (old(buffer)@.len() <= C_MAX && aad@.len() <= A_MAX && tag@ == gcm_tag(
            key@,
            nonce@,
            aad@,
            old(buffer)@,
        )),
        r is Ok ==> final(buffer)@ == xor_bytes(
            old(buffer)@,
            gcm_keystream(key@, nonce@, old(buffer)@.len()),
        ),
        r is Err ==> final(buffer)@ == old(buffer)@,
{
    let cipher = aes_gcm::Aes128Gcm::new(GenericArray::from_slice(key));
    cipher.decrypt_in_place_detached(
        GenericArray::from_slice(nonce),
        aad,
        buffer,
        GenericArray::from_slice(tag),
    )
}

/// Relies on aes-gcm's `AeadInPlace::decrypt_in_place_detached` for `Aes256Gcm`,
/// as for the 128-bit variant.
#[verifier::external_body]
fn aes256_gcm_decrypt(key: &[u8], nonce: &[u8], aad: &[u8], buffer: &mut [u8], tag: &[u8]) -> (r:
    Result<(), aead::Error>)
    requires
        key@.len() == 32,
        nonce@.len() == NONCE_SIZE,
        tag@.len() == GCM_TAG_SIZE,
    ensures
        r is Ok <==> (old(buffer)@.len() <= C_MAX && aad@.len() <= A_MAX && tag@ == gcm_tag(
            key@,
            nonce@,
            aad@,
            old(buffer)@,
        )),
        r is Ok ==> final(buffer)@ == xor_bytes(
            old(buffer)@,
            gcm_keystream(key@, nonce@, old(buffer)@.len()),
        ),
        r is Err ==> final(buffer)@ == old(buffer)@,
{
    let cipher = aes_gcm::Aes256Gcm::new(GenericArray::from_slice(key));
    cipher.decrypt_in_place_detached(
        GenericArray::from_slice(nonce),
        aad,
        buffer,
        GenericArray::from_slice(tag),
    )
}

/// GCM encryption in place under a 16- or 32-byte key; returns the 16-byte tag.
pub fn gcm_encrypt(key: &[u8], nonce: &[u8], aad: &[u8], buffer: &mut [u8]) -> (r: Result<
    Vec<u8>,
    AeadError,
>)
    requires
        is_gcm_key_len(key@.len()),
        nonce@.len() == NONCE_SIZE,
    ensures
        r is Err <==> (old(buffer)@.len() > P_MAX || aad@.len() > A_MAX),
        r is Err ==> final(buffer)@ == old(buffer)@,
        r is Ok ==> final(buffer)@ == gcm_apply(key@, nonce@, old(buffer)@),
        r matches Ok(t) ==> t@ == gcm_tag(key@, nonce@, aad@, final(buffer)@),
{
    let r = if key.len() == 16 {
        aes128_gcm_encrypt(key, nonce, aad, buffer)
    } else {
        aes256_gcm_encrypt(key, nonce, aad, buffer)
    };
    match r {
        Ok(t) => {
            assert(t@ =~= gcm_tag(key@, nonce@, aad@, buffer@));
            Ok(t)
        },
        Err(_) => Err(AeadError),
    }
}

/// GCM decryption in place under a 16- or 32-byte key. Returns whether the tag
/// matched; the buffer is decrypted exactly when it did, and untouched otherwise.
pub fn gcm_decrypt(key: &[u8], nonce: &[u8], aad: &[u8], buffer: &mut [u8], tag: &[u8]) -> (r:
    bool)
    requires
        is_gcm_key_len(key@.len()),
        nonce@.len() == NONCE_SIZE,
        tag@.len() == GCM_TAG_SIZE,
    ensures
        r <==> (old(buffer)@.len() <= C_MAX && aad@.len() <= A_MAX && tag@ == gcm_tag(
            key@,
            nonce@,
            aad@,
            old(buffer)@,
        )),
        r ==> final(buffer)@ == gcm_apply(key@, nonce@, old(buffer)@),
        !r ==> final(buffer)@ == old(buffer)@,
{
    let r = if key.len() == 16 {
        aes128_gcm_decrypt(key, nonce, aad, buffer, tag)
    } else {
        aes256_gcm_decrypt(key, nonce, aad, buffer, tag)
    };
    r.is_ok()
}

} // verus!
