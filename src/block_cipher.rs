//! The AES block ciphers that the CX committing PRF runs on.
use vstd::prelude::*;
use aes::cipher::generic_array::GenericArray;
use aes::cipher::{BlockEncrypt, KeyInit};

verus! {

/// Size in bytes of an AES block.
pub const BLOCK_SIZE: usize = 16;

/// The AES-128 encryption of one block under a 16-byte key.
pub uninterp spec fn aes128_block_of(key: Seq<u8>, block: Seq<u8>) -> Seq<u8>;

/// The AES-256 encryption of one block under a 32-byte key.
pub uninterp spec fn aes256_block_of(key: Seq<u8>, block: Seq<u8>) -> Seq<u8>;

/// Key lengths for which an AES variant is available here.
pub open spec fn is_aes_key_len(n: nat) -> bool {
    n == 16 || n == 32
}

/// AES encryption of one block, the variant chosen by the key's length. The
/// result is one block long.
pub open spec fn aes_block(key: Seq<u8>, block: Seq<u8>) -> Seq<u8> {
    Seq::new(
        BLOCK_SIZE as nat,
        |j: int|
            if key.len() == 16 {
                aes128_block_of(key, block)[j]
            } else {
                aes256_block_of(key, block)[j]
            },
    )
}

/// Relies on aes's `Aes128` (`KeyInit::new`, then `BlockEncrypt::encrypt_block`):
/// the block encrypted under the key, one block long.
#[verifier::external_body]
fn aes128_encrypt_block(key: &[u8], block: &[u8]) -> (r: Vec<u8>)
    requires
        key@.len() == 16,
        block@.len() == BLOCK_SIZE,
    ensures
        r@ == aes128_block_of(key@, block@),
        r@.len() == BLOCK_SIZE,
{
    let cipher = aes::Aes128::new(GenericArray::from_slice(key));
    let mut b = GenericArray::clone_from_slice(block);
    cipher.encrypt_block(&mut b);
    b.to_vec()
}

/// Relies on aes's `Aes256` (`KeyInit::new`, then `BlockEncrypt::encrypt_block`):
/// the block encrypted under the key, one block long.
#[verifier::external_body]
fn aes256_encrypt_block(key: &[u8], block: &[u8]) -> (r: Vec<u8>)
    requires
        key@.len() == 32,
        block@.len() == BLOCK_SIZE,
    ensures
        r@ == aes256_block_of(key@, block@),
        r@.len() == BLOCK_SIZE,
{
    let cipher = aes::Aes256::new(GenericArray::from_slice(key));
    let mut b = GenericArray::clone_from_slice(block);
    cipher.encrypt_block(&mut b);
    b.to_vec()
}

/// Encrypts one block with AES-128 or AES-256, as the key's length says.
pub fn aes_encrypt_block(key: &[u8], block: &[u8]) -> (r: Vec<u8>)
    requires
        is_aes_key_len(key@.len()),
        block@.len() == BLOCK_SIZE,
    ensures
        r@ == aes_block(key@, block@),
        r@.len() == BLOCK_SIZE,
{
    let r = if key.len() == 16 {
        aes128_encrypt_block(key, block)
    } else {
        aes256_encrypt_block(key, block)
    };
    assert(r@ =~= aes_block(key@, block@));
    r
}

} // verus!
