use aes_gcm::aead::generic_array::GenericArray;
use aes_gcm::aead::{AeadInPlace, KeyInit};
use kc_aeads::{pack_tag, unpack_tag, AeadError, CommittingPrf, ConfigError, CxPrf, UtcOverAesGcm};
use rand::RngCore;

fn random_bytes(n: usize) -> Vec<u8> {
    let mut buf = vec![0u8; n];
    rand::thread_rng().fill_bytes(&mut buf);
    buf
}

// Tests that Dec(Enc(x)) == x for a lot of x
#[test]
fn utc_correctness() {
    let ciph128 = UtcOverAesGcm::new(&random_bytes(16)).unwrap();
    let ciph256 = UtcOverAesGcm::new(&random_bytes(32)).unwrap();

    for msg_len in 0..=512 {
        let msg = random_bytes(msg_len);
        let aad = random_bytes(msg_len);
        let nonce = random_bytes(12);

        let mut buf128 = msg.clone();
        let mut buf256 = msg.clone();
        let tag128 = ciph128.encrypt_in_place_detached(&nonce, &aad, &mut buf128).unwrap();
        let tag256 = ciph256.encrypt_in_place_detached(&nonce, &aad, &mut buf256).unwrap();

        ciph128.decrypt_in_place_detached(&nonce, &aad, &mut buf128, &tag128).unwrap();
        ciph256.decrypt_in_place_detached(&nonce, &aad, &mut buf256, &tag256).unwrap();

        assert_eq!(msg, buf128);
        assert_eq!(msg, buf256);
    }
}

#[test]
fn utc_hello_scenario() {
    let utc = UtcOverAesGcm::new(&[0u8; 16]).unwrap();
    let nonce = [0u8; 12];
    let mut buf = b"hello".to_vec();
    let tag = utc.encrypt_in_place_detached(&nonce, &[], &mut buf).unwrap();
    assert_eq!(buf.len(), 5);
    assert_eq!(tag.len(), utc.tag_size());
    assert_eq!(tag.len(), 48);
    assert_ne!(buf, b"hello".to_vec());
    let ct = buf.clone();

    utc.decrypt_in_place_detached(&nonce, &[], &mut buf, &tag).unwrap();
    assert_eq!(buf, b"hello".to_vec());

    for i in 0..tag.len() {
        let mut bad = tag.clone();
        bad[i] ^= 0x01;
        let mut buf = ct.clone();
        assert_eq!(
            utc.decrypt_in_place_detached(&nonce, &[], &mut buf, &bad),
            Err(AeadError)
        );
        assert_eq!(buf, ct);
    }
}

#[test]
fn utc_matches_gcm_under_the_mask() {
    let key = random_bytes(16);
    let nonce = random_bytes(12);
    let aad = random_bytes(20);
    let msg = random_bytes(37);
    let (com, mask) = CxPrf::new(&key).unwrap().prf(&nonce);

    let mut expected = msg.clone();
    let gcm = aes_gcm::Aes128Gcm::new(GenericArray::from_slice(&mask));
    let gcm_tag = gcm
        .encrypt_in_place_detached(GenericArray::from_slice(&nonce), &aad, &mut expected)
        .unwrap();

    let mut buf = msg.clone();
    let tag = UtcOverAesGcm::new(&key)
        .unwrap()
        .encrypt_in_place_detached(&nonce, &aad, &mut buf)
        .unwrap();
    assert_eq!(buf, expected);
    assert_eq!(tag, [gcm_tag.to_vec(), com].concat());
}

#[test]
fn utc_aes256_matches_gcm_under_the_mask() {
    let key = random_bytes(32);
    let nonce = random_bytes(12);
    let msg = random_bytes(100);
    let (com, mask) = CxPrf::new(&key).unwrap().prf(&nonce);

    let mut expected = msg.clone();
    let gcm = aes_gcm::Aes256Gcm::new(GenericArray::from_slice(&mask));
    let gcm_tag = gcm
        .encrypt_in_place_detached(GenericArray::from_slice(&nonce), &[], &mut expected)
        .unwrap();

    let utc = UtcOverAesGcm::new(&key).unwrap();
    let mut buf = msg.clone();
    let tag = utc.encrypt_in_place_detached(&nonce, &[], &mut buf).unwrap();
    assert_eq!(buf, expected);
    assert_eq!(tag.len(), 16 + 64);
    assert_eq!(tag, [gcm_tag.to_vec(), com].concat());
}

#[test]
fn utc_tamper_detection() {
    let utc = UtcOverAesGcm::new(&random_bytes(16)).unwrap();
    let nonce = random_bytes(12);
    let aad = random_bytes(16);
    let msg = random_bytes(40);
    let mut ct = msg.clone();
    let tag = utc.encrypt_in_place_detached(&nonce, &aad, &mut ct).unwrap();

    // A flipped ciphertext bit
    for i in [0usize, 17, 39] {
        let mut buf = ct.clone();
        buf[i] ^= 0x80;
        let before = buf.clone();
        assert!(utc.decrypt_in_place_detached(&nonce, &aad, &mut buf, &tag).is_err());
        assert_eq!(buf, before);
    }
    // A flipped nonce bit
    let mut bad_nonce = nonce.clone();
    bad_nonce[3] ^= 0x04;
    let mut buf = ct.clone();
    assert!(utc.decrypt_in_place_detached(&bad_nonce, &aad, &mut buf, &tag).is_err());
    assert_eq!(buf, ct);
    // A flipped bit of associated data
    let mut bad_aad = aad.clone();
    bad_aad[15] ^= 0x01;
    let mut buf = ct.clone();
    assert!(utc.decrypt_in_place_detached(&nonce, &bad_aad, &mut buf, &tag).is_err());
    assert_eq!(buf, ct);
    // A tag of the wrong length
    let mut buf = ct.clone();
    assert!(utc.decrypt_in_place_detached(&nonce, &aad, &mut buf, &tag[..47]).is_err());
    assert_eq!(buf, ct);
}

#[test]
fn utc_restores_buffer_when_only_the_commitment_fails() {
    // The GCM part of the tag stays valid, so GCM decrypts the buffer; the
    // commitment does not match, so the ciphertext must be put back
    let utc = UtcOverAesGcm::new(&random_bytes(32)).unwrap();
    let nonce = random_bytes(12);
    let msg = random_bytes(64);
    let mut ct = msg.clone();
    let tag = utc.encrypt_in_place_detached(&nonce, b"ctx", &mut ct).unwrap();
    let (gcm_tag, com) = unpack_tag(&tag);
    let mut bad_com = com.to_vec();
    bad_com[0] ^= 0xff;
    let bad = pack_tag(gcm_tag, &bad_com);

    let mut buf = ct.clone();
    assert_eq!(
        utc.decrypt_in_place_detached(&nonce, b"ctx", &mut buf, &bad),
        Err(AeadError)
    );
    assert_eq!(buf, ct);
}

#[test]
fn utc_key_commitment() {
    let key = random_bytes(16);
    let mut other = key.clone();
    other[0] ^= 1;
    let nonce = random_bytes(12);
    let mut ct = b"attack at dawn".to_vec();
    let tag = UtcOverAesGcm::new(&key)
        .unwrap()
        .encrypt_in_place_detached(&nonce, &[], &mut ct)
        .unwrap();

    let mut buf = ct.clone();
    assert!(UtcOverAesGcm::new(&other)
        .unwrap()
        .decrypt_in_place_detached(&nonce, &[], &mut buf, &tag)
        .is_err());
    assert_eq!(buf, ct);
    assert!(UtcOverAesGcm::new(&random_bytes(32))
        .unwrap()
        .decrypt_in_place_detached(&nonce, &[], &mut buf, &tag)
        .is_err());
    assert_eq!(buf, ct);
}

#[test]
fn utc_key_sizes() {
    assert_eq!(
        UtcOverAesGcm::new(&[0u8; 24]).err(),
        Some(ConfigError::KeySizeNotBlockMultiple)
    );
    assert_eq!(UtcOverAesGcm::new(&[0u8; 64]).err(), Some(ConfigError::UnsupportedKeySize));
    let utc = UtcOverAesGcm::new(&[0u8; 32]).unwrap();
    assert_eq!(utc.key_size(), 32);
    assert_eq!(utc.tag_size(), 80);
}

#[test]
fn pack_then_unpack() {
    let base = random_bytes(16);
    let com = random_bytes(32);
    let tag = pack_tag(&base, &com);
    assert_eq!(tag.len(), 48);
    assert_eq!(tag[..16], base[..]);
    let (b, c) = unpack_tag(&tag);
    assert_eq!(b, &base[..]);
    assert_eq!(c, &com[..]);
}

#[test]
fn utc_zeroize_clears_key() {
    let mut utc = UtcOverAesGcm::new(&[9u8; 16]).unwrap();
    utc.zeroize();
    assert_eq!(utc.key_size(), 0);
}
