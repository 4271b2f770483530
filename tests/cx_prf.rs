use aes::cipher::generic_array::GenericArray;
use aes::cipher::{BlockEncrypt, KeyInit};
use kc_aeads::{CommittingPrf, ConfigError, CxPrf, HashKind, HkdfComPrf};
use rand::RngCore;

fn random_bytes(n: usize) -> Vec<u8> {
    let mut buf = vec![0u8; n];
    rand::thread_rng().fill_bytes(&mut buf);
    buf
}

fn pad(msg: &[u8], i: u8) -> Vec<u8> {
    let mut block = vec![0u8; 16];
    block[..msg.len()].copy_from_slice(msg);
    block[15] = i;
    block
}

fn aes128(key: &[u8], block: &[u8]) -> Vec<u8> {
    let c = aes::Aes128::new(GenericArray::from_slice(key));
    let mut b = GenericArray::clone_from_slice(block);
    c.encrypt_block(&mut b);
    b.to_vec()
}

fn aes256(key: &[u8], block: &[u8]) -> Vec<u8> {
    let c = aes::Aes256::new(GenericArray::from_slice(key));
    let mut b = GenericArray::clone_from_slice(block);
    c.encrypt_block(&mut b);
    b.to_vec()
}

// CX over AES-128 and AES-256 runs on a 12-byte nonce
#[test]
fn basic_cx_prf() {
    let nonce = random_bytes(12);

    let key = random_bytes(16);
    CxPrf::new(&key).unwrap().prf(&nonce);

    let key = random_bytes(32);
    CxPrf::new(&key).unwrap().prf(&nonce);
}

#[test]
fn cx_aes128() {
    let nonce = random_bytes(12);
    let key = random_bytes(16);
    CxPrf::new(&key).unwrap().prf(&nonce);
}

#[test]
fn cx_aes256() {
    let nonce = random_bytes(12);
    let key = random_bytes(32);
    CxPrf::new(&key).unwrap().prf(&nonce);
}

#[should_panic]
#[test]
fn cx_aes192() {
    let nonce = random_bytes(12);
    let key = random_bytes(24);
    CxPrf::new(&key).unwrap().prf(&nonce);
}

#[test]
fn cx_rejects_aes192_key_at_construction() {
    let key = random_bytes(24);
    assert_eq!(CxPrf::new(&key).err(), Some(ConfigError::KeySizeNotBlockMultiple));
    assert_eq!(CxPrf::new(&[0u8; 8]).err(), Some(ConfigError::KeySizeNotBlockMultiple));
}

#[test]
fn cx_rejects_unsupported_key_lengths() {
    assert_eq!(CxPrf::new(&[]).err(), Some(ConfigError::UnsupportedKeySize));
    assert_eq!(CxPrf::new(&[0u8; 48]).err(), Some(ConfigError::UnsupportedKeySize));
}

#[test]
fn aes128_zero_key_zero_block() {
    // FIPS-197 style known answer: AES-128 of the zero block under the zero key
    let expected = [
        0x66, 0xe9, 0x4b, 0xd4, 0xef, 0x8a, 0x2c, 0x3b, 0x88, 0x4c, 0xfa, 0x59, 0xca, 0x34, 0x2b,
        0x2e,
    ];
    assert_eq!(aes128(&[0u8; 16], &[0u8; 16]), expected.to_vec());
}

#[test]
fn cx_aes128_matches_definition() {
    let key = random_bytes(16);
    let nonce = random_bytes(12);
    let (com, mask) = CxPrf::new(&key).unwrap().prf(&nonce);

    let x1 = pad(&nonce, 1);
    let v1: Vec<u8> = aes128(&key, &x1).iter().zip(x1.iter()).map(|(a, b)| a ^ b).collect();
    let v2 = aes128(&key, &pad(&nonce, 2));
    let v3 = aes128(&key, &pad(&nonce, 3));
    assert_eq!(com, [v1, v2].concat());
    assert_eq!(mask, v3);
}

#[test]
fn cx_aes256_matches_definition() {
    let key = random_bytes(32);
    let nonce = random_bytes(12);
    let (com, mask) = CxPrf::new(&key).unwrap().prf(&nonce);

    let x1 = pad(&nonce, 1);
    let v1: Vec<u8> = aes256(&key, &x1).iter().zip(x1.iter()).map(|(a, b)| a ^ b).collect();
    let rest: Vec<Vec<u8>> = (2..=6).map(|i| aes256(&key, &pad(&nonce, i))).collect();
    assert_eq!(com, [v1, rest[0].clone(), rest[1].clone(), rest[2].clone()].concat());
    assert_eq!(mask, [rest[3].clone(), rest[4].clone()].concat());
}

#[test]
fn cx_first_block_is_xored_with_its_input() {
    // Zero key, zero nonce: the first commitment block is E(X1) ^ X1, which
    // differs from E(X1) only in the last byte (X1 = 0..0 || 1)
    let key = [0u8; 16];
    let nonce = [0u8; 12];
    let (com, _) = CxPrf::new(&key).unwrap().prf(&nonce);
    let v1 = aes128(&key, &pad(&nonce, 1));
    assert_eq!(com[..15], v1[..15]);
    assert_eq!(com[15], v1[15] ^ 1);
}

#[test]
fn cx_prf_is_deterministic() {
    let key = random_bytes(32);
    let nonce = random_bytes(12);
    let a = CxPrf::new(&key).unwrap().prf(&nonce);
    let p = CxPrf::new(&key).unwrap();
    let b = p.prf(&nonce);
    let c = p.prf(&nonce);
    assert_eq!(a, b);
    assert_eq!(b, c);
}

#[test]
fn cx_commitment_is_twice_the_mask() {
    for n in [16usize, 32] {
        let (com, mask) = CxPrf::new(&random_bytes(n)).unwrap().prf(&random_bytes(12));
        assert_eq!(mask.len(), n);
        assert_eq!(com.len(), 2 * mask.len());
    }
}

#[test]
fn cx_differs_across_nonces() {
    let key = random_bytes(16);
    let p = CxPrf::new(&key).unwrap();
    let a = p.prf(&[0u8; 12]);
    let mut n = [0u8; 12];
    n[11] = 1;
    let b = p.prf(&n);
    assert_ne!(a.0, b.0);
    assert_ne!(a.1, b.1);
}

#[test]
fn hkdf_com_prf_matches_definition() {
    let key = random_bytes(16);
    let nonce = random_bytes(12);
    let (com, mask) = HkdfComPrf::new(HashKind::Sha256, &key).unwrap().prf(&nonce);

    let hk = hkdf::Hkdf::<sha2::Sha256>::new(Some(b"HkdfComPrf"), &key);
    let mut expected_com = vec![0u8; 32];
    hk.expand(&[b"P".as_slice(), &nonce].concat(), &mut expected_com).unwrap();
    let mut expected_mask = vec![0u8; 16];
    hk.expand(&[b"L".as_slice(), &nonce].concat(), &mut expected_mask).unwrap();
    assert_eq!(com, expected_com);
    assert_eq!(mask, expected_mask);
}

#[test]
fn hkdf_com_prf_sha512_matches_definition() {
    let key = random_bytes(32);
    let nonce = random_bytes(12);
    let (com, mask) = HkdfComPrf::new(HashKind::Sha512, &key).unwrap().prf(&nonce);

    let hk = hkdf::Hkdf::<sha2::Sha512>::new(Some(b"HkdfComPrf"), &key);
    let mut expected_com = vec![0u8; 64];
    hk.expand(&[b"P".as_slice(), &nonce].concat(), &mut expected_com).unwrap();
    let mut expected_mask = vec![0u8; 32];
    hk.expand(&[b"L".as_slice(), &nonce].concat(), &mut expected_mask).unwrap();
    assert_eq!(com, expected_com);
    assert_eq!(mask, expected_mask);
}

#[test]
fn hkdf_com_prf_sizes_and_determinism() {
    let key = random_bytes(32);
    let nonce = random_bytes(12);
    let p = HkdfComPrf::new(HashKind::Sha256, &key).unwrap();
    let (com, mask) = p.prf(&nonce);
    assert_eq!(mask.len(), 32);
    assert_eq!(com.len(), 64);
    assert_eq!(p.prf(&nonce), (com.clone(), mask.clone()));
    // The two labels keep commitment and mask apart
    assert_ne!(com[..32], mask[..]);
}

#[test]
fn hkdf_com_prf_rejects_overlong_output() {
    // SHA-256 expands to at most 255 * 32 = 8160 bytes; a 4081-byte key asks 8162
    let key = vec![7u8; 4081];
    assert_eq!(
        HkdfComPrf::new(HashKind::Sha256, &key).err(),
        Some(ConfigError::OutputTooLong)
    );
    assert!(HkdfComPrf::new(HashKind::Sha256, &vec![7u8; 4080]).is_ok());
    assert!(HkdfComPrf::new(HashKind::Sha512, &vec![7u8; 4081]).is_ok());
}
