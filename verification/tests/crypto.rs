use p256::ecdsa::signature::hazmat::PrehashVerifier;
use p256::ecdsa::{Signature, SigningKey, VerifyingKey};
use sha2::{Digest, Sha256};
use spe::crypto::{
    write_prefix, CryptoPackIovec, CRYPTO_PACK_IOVEC_SIZE, CryptoOperation, CryptoService, PSA_ALG_SHA_256, TFM_CRYPTO_ASYMMETRIC_SIGN_HASH_SID,
    TFM_CRYPTO_HASH_COMPUTE_SID,
};
use spe::status::StatusCode;

#[test]
fn test_sign_hash_success() {
    let mut key = [0u8; 32];
    key[31] = 1; // A valid scalar
    let service = CryptoService::new(key);
    let hash = [0u8; 32];
    let mut sig_buf = [0u8; 64];

    let res = service.sign_hash(&hash, &mut sig_buf);
    assert_eq!(res, Ok(64));
}

#[test]
fn test_sign_hash_invalid_hash_len() {
    let mut key = [0u8; 32];
    key[31] = 1;
    let service = CryptoService::new(key);
    let hash = [0u8; 31];
    let mut sig_buf = [0u8; 64];

    let res = service.sign_hash(&hash, &mut sig_buf);
    assert_eq!(res, Err(StatusCode::InvalidArgument));
}

#[test]
fn test_sign_hash_buffer_too_small() {
    let mut key = [0u8; 32];
    key[31] = 1;
    let service = CryptoService::new(key);
    let hash = [0u8; 32];
    let mut sig_buf = [0u8; 63];

    let res = service.sign_hash(&hash, &mut sig_buf);
    assert_eq!(res, Err(StatusCode::BufferTooSmall));
}

#[test]
fn test_compute_hash_success() {
    let input = b"hello world";
    let mut hash_buf = [0u8; 32];

    let res = CryptoService::compute_hash(PSA_ALG_SHA_256, input, &mut hash_buf);
    assert_eq!(res, Ok(32));

    let expected_hash = Sha256::digest(input);
    assert_eq!(&hash_buf[..], &expected_hash[..]);
}

#[test]
fn test_compute_hash_invalid_alg() {
    let input = b"hello world";
    let mut hash_buf = [0u8; 32];

    let res = CryptoService::compute_hash(0x1234, input, &mut hash_buf);
    assert_eq!(res, Err(StatusCode::NotSupported));
}

#[test]
fn test_compute_hash_buffer_too_small() {
    let input = b"hello world";
    let mut hash_buf = [0u8; 31];

    let res = CryptoService::compute_hash(PSA_ALG_SHA_256, input, &mut hash_buf);
    assert_eq!(res, Err(StatusCode::BufferTooSmall));
}

#[test]
fn sign_hash_zero_key_is_rejected_and_buffer_untouched() {
    let service = CryptoService::new([0u8; 32]);
    let mut sig_buf = [0x5Au8; 64];
    assert_eq!(
        service.sign_hash(&[1u8; 32], &mut sig_buf),
        Err(StatusCode::InvalidArgument)
    );
    assert_eq!(sig_buf, [0x5A; 64]);
}

#[test]
fn sign_hash_key_at_group_order_is_rejected() {
    // n, the order of the P-256 group, is not a valid scalar; n - 1 is.
    let order: [u8; 32] = [
        0xff, 0xff, 0xff, 0xff, 0x00, 0x00, 0x00, 0x00, 0xff, 0xff, 0xff, 0xff, 0xff, 0xff, 0xff,
        0xff, 0xbc, 0xe6, 0xfa, 0xad, 0xa7, 0x17, 0x9e, 0x84, 0xf3, 0xb9, 0xca, 0xc2, 0xfc, 0x63,
        0x25, 0x51,
    ];
    let mut buf = [0u8; 64];
    assert_eq!(
        CryptoService::new(order).sign_hash(&[1u8; 32], &mut buf),
        Err(StatusCode::InvalidArgument)
    );
    let mut below = order;
    below[31] = 0x50;
    assert_eq!(CryptoService::new(below).sign_hash(&[1u8; 32], &mut buf), Ok(64));
}

#[test]
fn sign_hash_writes_a_verifiable_signature_and_keeps_the_tail() {
    let mut key = [0u8; 32];
    key[31] = 7;
    let service = CryptoService::new(key);
    let hash = Sha256::digest(b"attest me");
    let mut buf = [0xC3u8; 70];
    assert_eq!(service.sign_hash(&hash, &mut buf), Ok(64));
    assert!(buf[64..].iter().all(|&b| b == 0xC3));
    assert_ne!(&buf[..64], &[0xC3u8; 64][..]);

    let signing_key = SigningKey::from_slice(&key).unwrap();
    let verifying_key = VerifyingKey::from(&signing_key);
    let signature = Signature::from_slice(&buf[..64]).unwrap();
    assert!(verifying_key.verify_prehash(&hash, &signature).is_ok());
}

#[test]
fn compute_hash_keeps_bytes_past_the_digest() {
    let mut buf = [0x11u8; 40];
    assert_eq!(CryptoService::compute_hash(PSA_ALG_SHA_256, b"", &mut buf), Ok(32));
    let expected = Sha256::digest(b"");
    assert_eq!(&buf[..32], &expected[..]);
    assert_eq!(&buf[32..], &[0x11u8; 8]);
}

#[test]
fn operation_for_function_ids() {
    assert_eq!(
        CryptoService::operation_for(TFM_CRYPTO_ASYMMETRIC_SIGN_HASH_SID),
        Ok(CryptoOperation::SignHash)
    );
    assert_eq!(
        CryptoService::operation_for(TFM_CRYPTO_HASH_COMPUTE_SID),
        Ok(CryptoOperation::ComputeHash)
    );
    assert_eq!(CryptoService::operation_for(0x0101), Err(StatusCode::NotSupported));
}

#[test]
fn perform_reports_written_length() {
    let mut key = [0u8; 32];
    key[31] = 1;
    let service = CryptoService::new(key);

    let mut out = [0u8; 64];
    assert_eq!(
        service.perform(CryptoOperation::ComputeHash, PSA_ALG_SHA_256, b"abc", &mut out),
        (Ok(()), 32)
    );
    assert_eq!(&out[..32], &Sha256::digest(b"abc")[..]);

    let mut small = [9u8; 10];
    assert_eq!(
        service.perform(CryptoOperation::SignHash, 0, &[0u8; 32], &mut small),
        (Err(StatusCode::BufferTooSmall), 0)
    );
    assert_eq!(small, [9u8; 10]);
}

#[test]
fn write_prefix_copies_to_start() {
    let mut dst = [0u8; 5];
    write_prefix(&mut dst, &[1, 2, 3]);
    assert_eq!(dst, [1, 2, 3, 0, 0]);
}

#[test]
fn pack_iovec_header_is_decoded() {
    let mut buf = [0u8; CRYPTO_PACK_IOVEC_SIZE];
    buf[0..4].copy_from_slice(&0x1122_3344u32.to_le_bytes());
    buf[4..8].copy_from_slice(&PSA_ALG_SHA_256.to_le_bytes());
    buf[40..42].copy_from_slice(&TFM_CRYPTO_HASH_COMPUTE_SID.to_le_bytes());
    buf[42..44].copy_from_slice(&7u16.to_le_bytes());
    assert_eq!(
        CryptoPackIovec::from_bytes(&buf),
        Ok(CryptoPackIovec {
            function_id: TFM_CRYPTO_HASH_COMPUTE_SID,
            key_id: 0x1122_3344,
            alg: PSA_ALG_SHA_256,
        })
    );
    assert_eq!(CryptoPackIovec::from_bytes(&buf[..47]), Err(StatusCode::ProgrammerError));
    assert_eq!(CryptoPackIovec::from_bytes(&[0u8; 49]), Err(StatusCode::ProgrammerError));
}
