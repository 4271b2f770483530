//! The CX[E] committing PRF over a block cipher E (AES-128 or AES-256).
//!
//! For a message M and i = 1, 2, ..., the i-th input block is M, then zero
//! bytes, then the byte i, one cipher block in all. Each block is encrypted
//! under the PRF key, and the first plaintext block is XORed into the first
//! ciphertext block. The commitment is the first 2|K|/16 blocks of output, the
//! mask the |K|/16 blocks after them.
use vstd::prelude::*;
use crate::block_cipher::{aes_block, aes_encrypt_block, is_aes_key_len, BLOCK_SIZE};
use crate::bytes::{wipe, xor_bytes, xor_with};
use crate::committing_prf::{CommittingPrf, NONCE_SIZE};
use crate::error::ConfigError;
use vstd::slice::slice_to_vec;

verus! {

/// The padded input block for message `msg` and counter `i`.
pub open spec fn pad_block(msg: Seq<u8>, i: nat) -> Seq<u8> {
    msg + Seq::new((BLOCK_SIZE - 1 - msg.len()) as nat, |j: int| 0u8) + seq![i as u8]
}

/// The `i`-th output block (counting from 1) of CX under `key` on `msg`.
pub open spec fn cx_block(key: Seq<u8>, msg: Seq<u8>, i: nat) -> Seq<u8> {
    let x = pad_block(msg, i);
    let v = aes_block(key, x);
    if i == 1 {
        xor_bytes(v, x)
    } else {
        v
    }
}

/// Output blocks `first .. first + count` of CX, concatenated.
pub open spec fn cx_blocks(key: Seq<u8>, msg: Seq<u8>, first: nat, count: nat) -> Seq<u8>
    decreases count,
{
    if count == 0 {
        Seq::empty()
    } else {
        cx_blocks(key, msg, first, (count - 1) as nat) + cx_block(key, msg, (first + count - 1) as nat)
    }
}

/// Number of cipher blocks in the commitment for a key of `key_len` bytes.
pub open spec fn com_blocks(key_len: nat) -> nat {
    2 * key_len / BLOCK_SIZE as nat
}

/// Number of cipher blocks in the mask for a key of `key_len` bytes.
pub open spec fn mask_blocks(key_len: nat) -> nat {
    key_len / BLOCK_SIZE as nat
}

/// The CX commitment: output blocks 1 ..= 2|K|/16.
pub open spec fn cx_com(key: Seq<u8>, msg: Seq<u8>) -> Seq<u8> {
    cx_blocks(key, msg, 1, com_blocks(key.len()))
}

/// The CX mask: the |K|/16 output blocks after the commitment.
pub open spec fn cx_mask(key: Seq<u8>, msg: Seq<u8>) -> Seq<u8> {
    cx_blocks(key, msg, com_blocks(key.len()) + 1, mask_blocks(key.len()))
}

/// Each CX output block is one cipher block long.
pub proof fn lemma_cx_blocks_len(key: Seq<u8>, msg: Seq<u8>, first: nat, count: nat)
    ensures
        cx_blocks(key, msg, first, count).len() == BLOCK_SIZE * count,
    decreases count,
{
    if count > 0 {
        lemma_cx_blocks_len(key, msg, first, (count - 1) as nat);
    }
}

/// The CX commitment is twice as long as the CX mask, and the mask is as long
/// as the key.
pub proof fn lemma_cx_sizes(key: Seq<u8>, msg: Seq<u8>)
    requires
        is_aes_key_len(key.len()),
    ensures
        cx_mask(key, msg).len() == key.len(),
        cx_com(key, msg).len() == 2 * cx_mask(key, msg).len(),
{
    lemma_cx_blocks_len(key, msg, 1, com_blocks(key.len()));
    lemma_cx_blocks_len(key, msg, com_blocks(key.len()) + 1, mask_blocks(key.len()));
}

/// CX is a function of the key and the message: two instances with the same key
/// give the same commitment and mask on the same message.
pub proof fn lemma_cx_deterministic(p: CxPrf, q: CxPrf, msg: Seq<u8>)
    requires
        p@ == q@,
    ensures
        p.com_of(msg) == q.com_of(msg),
        p.mask_of(msg) == q.mask_of(msg),
{
}

/// The CX[AES] committing PRF. Its view is the AES key.
pub struct CxPrf {
    key: Vec<u8>,
}

impl View for CxPrf {
    type V = Seq<u8>;

    closed spec fn view(&self) -> Seq<u8> {
        self.key@
    }
}

/// Builds the input block `msg || 0x00 .. 0x00 || i`.
fn pad(msg: &[u8], i: u8) -> (r: Vec<u8>)
    requires
        msg@.len() < BLOCK_SIZE,
    ensures
        r@ == pad_block(msg@, i as nat),
        r@.len() == BLOCK_SIZE,
{
    let mut r: Vec<u8> = Vec::with_capacity(BLOCK_SIZE);
    let mut k: usize = 0;
    while k < msg.len()
        invariant
            k <= msg@.len(),
            r@ == msg@.take(k as int),
        decreases msg@.len() - k,
    {
        r.push(msg[k]);
        k = k + 1;
        assert(r@ =~= msg@.take(k as int));
    }
    while k < BLOCK_SIZE - 1
        invariant
            msg@.len() <= k <= BLOCK_SIZE - 1,
            r@ =~= msg@ + Seq::new((k - msg@.len()) as nat, |j: int| 0u8),
        decreases BLOCK_SIZE - 1 - k,
    {
        r.push(0u8);
        k = k + 1;
        assert(r@ =~= msg@ + Seq::new((k - msg@.len()) as nat, |j: int| 0u8));
    }
    r.push(i);
    assert(r@ =~= pad_block(msg@, i as nat));
    r
}

impl CxPrf {
    /// The key is usable: AES-128 or AES-256.
    pub open spec fn well_formed_key(&self) -> bool {
        is_aes_key_len(self@.len())
    }

    /// Builds CX over AES with the given key. Keys of 16 and 32 bytes select
    /// AES-128 and AES-256. A key that is not a whole number of blocks is
    /// refused with `KeySizeNotBlockMultiple`, any other length with
    /// `UnsupportedKeySize`.
    pub fn new(key: &[u8]) -> (r: Result<CxPrf, ConfigError>)
        ensures
            key@.len() % (BLOCK_SIZE as nat) != 0 <==> r == Err::<CxPrf, ConfigError>(
                ConfigError::KeySizeNotBlockMultiple,
            ),
            r matches Ok(p) <==> is_aes_key_len(key@.len()),
            r matches Ok(p) ==> p@ == key@ && p.well_formed_key(),
            r == Err::<CxPrf, ConfigError>(ConfigError::UnsupportedKeySize) <==> (key@.len()
                % (BLOCK_SIZE as nat) == 0 && !is_aes_key_len(key@.len())),
    {
        if key.len() % BLOCK_SIZE != 0 {
            Err(ConfigError::KeySizeNotBlockMultiple)
        } else if key.len() != 16 && key.len() != 32 {
            Err(ConfigError::UnsupportedKeySize)
        } else {
            Ok(CxPrf { key: slice_to_vec(key) })
        }
    }

    /// Length in bytes of the key.
    pub fn key_size(&self) -> (r: usize)
        ensures
            r == self@.len(),
    {
        self.key.len()
    }

    /// Overwrites the key with zeros and drops it; the PRF is unusable after.
    pub fn zeroize(&mut self)
        ensures
            final(self)@.len() == 0,
    {
        wipe(&mut self.key);
    }

    /// Output block `i` (counting from 1) of CX on `msg`.
    fn block(&self, msg: &[u8], i: u8) -> (r: Vec<u8>)
        requires
            self.well_formed_key(),
            msg@.len() < BLOCK_SIZE,
        ensures
            r@ == cx_block(self@, msg@, i as nat),
            r@.len() == BLOCK_SIZE,
    {
        let x = pad(msg, i);
        let v = aes_encrypt_block(self.key.as_slice(), x.as_slice());
        if i == 1 {
            xor_with(v.as_slice(), x.as_slice())
        } else {
            v
        }
    }

    /// Output blocks `first .. first + count` of CX on `msg`, concatenated.
    fn blocks(&self, msg: &[u8], first: u8, count: u8) -> (r: Vec<u8>)
        requires
            self.well_formed_key(),
            msg@.len() < BLOCK_SIZE,
            first + count <= 255,
        ensures
            r@ == cx_blocks(self@, msg@, first as nat, count as nat),
            r@.len() == BLOCK_SIZE * count,
    {
        let mut r: Vec<u8> = Vec::new();
        let mut n: u8 = 0;
        while n < count
            invariant
                self.well_formed_key(),
                msg@.len() < BLOCK_SIZE,
                first + count <= 255,
                n <= count,
                r@ == cx_blocks(self@, msg@, first as nat, n as nat),
                r@.len() == BLOCK_SIZE * n,
            decreases count - n,
        {
            let mut b = self.block(msg, first + n);
            r.append(&mut b);
            n = n + 1;
        }
        r
    }
}

impl CommittingPrf for CxPrf {
    open spec fn well_formed(&self) -> bool {
        self.well_formed_key()
    }

    open spec fn mask_size(&self) -> nat {
        self@.len()
    }

    open spec fn com_of(&self, msg: Seq<u8>) -> Seq<u8> {
        cx_com(self@, msg)
    }

    open spec fn mask_of(&self, msg: Seq<u8>) -> Seq<u8> {
        cx_mask(self@, msg)
    }

    /// The CX PRF: `(commitment, mask)` for `msg`.
    fn prf(&self, msg: &[u8]) -> (r: (Vec<u8>, Vec<u8>)) {
        let ncom: u8 = if self.key.len() == 16 { 2 } else { 4 };
        let nmask: u8 = if self.key.len() == 16 { 1 } else { 2 };
        let com = self.blocks(msg, 1, ncom);
        let mask = self.blocks(msg, ncom + 1, nmask);
        (com, mask)
    }
}

} // verus!
