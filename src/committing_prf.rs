//! The committing PRF interface: a keyed function from a message to a pair
//! (commitment, mask), where the mask is used as an encryption key and the
//! commitment binds the PRF key.
use vstd::prelude::*;

verus! {

/// Width in bytes of the messages a committing PRF takes here: the AES-GCM nonce.
pub const NONCE_SIZE: usize = 12;

/// A committing PRF. `prf` is a pure function of the instance's key and the
/// message; the commitment is twice as long as the mask.
pub trait CommittingPrf: Sized {
    /// The instance holds a usable key schedule.
    spec fn well_formed(&self) -> bool;

    /// Length in bytes of the mask; the commitment is twice as long.
    spec fn mask_size(&self) -> nat;

    /// The commitment the PRF gives for `msg`.
    spec fn com_of(&self, msg: Seq<u8>) -> Seq<u8>;

    /// The mask the PRF gives for `msg`.
    spec fn mask_of(&self, msg: Seq<u8>) -> Seq<u8>;

    /// Evaluates the PRF on `msg`, returning `(commitment, mask)`.
    fn prf(&self, msg: &[u8]) -> (r: (Vec<u8>, Vec<u8>))
        requires
            self.well_formed(),
            msg@.len() == NONCE_SIZE,
        ensures
            r.0@ == self.com_of(msg@),
            r.1@ == self.mask_of(msg@),
            r.1@.len() == self.mask_size(),
            r.0@.len() == 2 * self.mask_size(),
    ;
}

} // verus!
