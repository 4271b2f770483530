//! Committing AEAD transforms.
//!
//! A nonce-based AEAD (here AES-GCM) is turned into a key-committing AEAD by the
//! UtC transform, which derives a per-nonce key from a committing PRF and appends
//! the PRF's commitment to the tag. The HtE transforms then bind the nonce and the
//! associated data as well, by deriving the inner key from them.
pub mod block_cipher;
pub mod bytes;
pub mod committing_prf;
pub mod cx_prf;
pub mod error;
pub mod gcm;
pub mod hash;
pub mod hkdf_com_prf;
pub mod hkdf_hte_transform;
pub mod mac_hte_transform;
pub mod utc_transform;

pub use committing_prf::{CommittingPrf, NONCE_SIZE};
pub use cx_prf::CxPrf;
pub use error::{AeadError, ConfigError};
pub use hash::HashKind;
pub use hkdf_com_prf::HkdfComPrf;
pub use hkdf_hte_transform::HkdfHte;
pub use mac_hte_transform::MacHte;
pub use utc_transform::{pack_tag, unpack_tag, UtcOverAesGcm};
