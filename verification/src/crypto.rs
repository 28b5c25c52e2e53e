//! The crypto service: ECDSA P-256 signing of a prehashed message and
//! SHA-256 hashing, with the argument checks of the PSA crypto API.
use vstd::prelude::*;

use crate::status::StatusCode;
use p256::ecdsa::signature::hazmat::PrehashSigner;
use sha2::Digest;

verus! {

/// Size of a P-256 ECDSA signature (r followed by s).
pub const P256_SIGNATURE_SIZE: usize = 64;

/// Size of a SHA-256 digest.
pub const SHA256_HASH_SIZE: usize = 32;

/// PSA algorithm identifier of SHA-256.
pub const PSA_ALG_SHA_256: u32 = 0x0200_0009;

/// Crypto service function identifier of `psa_hash_compute`.
pub const TFM_CRYPTO_HASH_COMPUTE_SID: u16 = 0x0300;

/// Crypto service function identifier of `psa_sign_hash`.
pub const TFM_CRYPTO_ASYMMETRIC_SIGN_HASH_SID: u16 = 0x0702;

/// The big-endian value of a byte string.
pub open spec fn spec_be_value(s: Seq<u8>) -> nat
    decreases s.len(),
{
    if s.len() == 0 {
        0
    } else {
        spec_be_value(s.drop_last()) * 256 + s.last() as nat
    }
}

/// The order of the P-256 group.
pub open spec fn spec_p256_order() -> nat {
    0xffffffff00000000ffffffffffffffffbce6faada7179e84f3b9cac2fc632551nat
}

/// A 32-byte big-endian secret scalar is a valid P-256 signing key when it
/// is neither zero nor at least the group order.
pub open spec fn spec_valid_p256_scalar(key: Seq<u8>) -> bool {
    key.len() == 32 && 0 < spec_be_value(key) && spec_be_value(key) < spec_p256_order()
}

/// The deterministic (RFC 6979) P-256 ECDSA signature, r followed by s, of a
/// prehashed message under a secret scalar.
pub uninterp spec fn spec_p256_sign_prehash(key: Seq<u8>, prehash: Seq<u8>) -> Seq<u8>;

/// The SHA-256 digest of a message.
pub uninterp spec fn spec_sha256(input: Seq<u8>) -> Seq<u8>;

/// Whether `p256::ecdsa::SigningKey::from_slice` accepts the 32-byte key:
/// the source accepts exactly the big-endian scalars in `1..n`, `n` being
/// the group order.
#[verifier::external_body]
fn p256_scalar_is_valid(key: &[u8; 32]) -> (r: bool)
    ensures
        r == spec_valid_p256_scalar(key@),
{
    p256::ecdsa::SigningKey::from_slice(key).is_ok()
}

/// Signs a 32-byte prehash with `SigningKey::sign_prehash` of `p256`, the key
/// being built from the scalar (which cannot fail on a valid scalar), and
/// returns `Signature::to_bytes`. The source's `sign_prehash` always returns
/// `Ok`. What the signature is, is named, not stated.
#[verifier::external_body]
fn p256_sign_prehash(key: &[u8; 32], prehash: &[u8]) -> (sig: [u8; 64])
    requires
        spec_valid_p256_scalar(key@),
        prehash@.len() == 32,
    ensures
        sig@ == spec_p256_sign_prehash(key@, prehash@),
{
    let signing_key = p256::ecdsa::SigningKey::from_slice(key).unwrap();
    let signature: p256::ecdsa::Signature = signing_key.sign_prehash(prehash).unwrap();
    signature.to_bytes().into()
}

/// The SHA-256 digest of `input`, computed by `sha2::Sha256::digest`.
#[verifier::external_body]
fn sha256_digest(input: &[u8]) -> (d: [u8; 32])
    ensures
        d@ == spec_sha256(input@),
{
    sha2::Sha256::digest(input).into()
}

/// Copies `src` to the start of `dst`, leaving the rest of `dst` as it was.
pub fn write_prefix(dst: &mut [u8], src: &[u8])
    requires
        src@.len() <= old(dst)@.len(),
    ensures
        final(dst)@ == src@ + old(dst)@.skip(src@.len() as int),
{
    let n = src.len();
    let mut i: usize = 0;
    while i < n
        invariant
            n == src@.len(),
            n <= dst@.len(),
            dst@.len() == old(dst)@.len(),
            0 <= i <= n,
            forall|k: int| 0 <= k < i ==> dst@[k] == src@[k],
            forall|k: int| i <= k < dst@.len() ==> dst@[k] == old(dst)@[k],
        decreases n - i,
    {
        dst[i] = src[i];
        i = i + 1;
    }
    proof {
        assert(dst@ =~= src@ + old(dst)@.skip(n as int));
    }
}

/// What `sign_hash` answers for a key, a hash and a signature buffer of the
/// given length.
pub open spec fn spec_sign_hash_result(key: Seq<u8>, hash: Seq<u8>, buf_len: nat) -> Result<usize, StatusCode> {
    if hash.len() != SHA256_HASH_SIZE {
        Err(StatusCode::InvalidArgument)
    } else if buf_len < P256_SIGNATURE_SIZE {
        Err(StatusCode::BufferTooSmall)
    } else if !spec_valid_p256_scalar(key) {
        Err(StatusCode::InvalidArgument)
    } else {
        Ok(P256_SIGNATURE_SIZE)
    }
}

/// What `compute_hash` answers for an algorithm and a digest buffer of the
/// given length.
pub open spec fn spec_compute_hash_result(alg: u32, buf_len: nat) -> Result<usize, StatusCode> {
    if alg != PSA_ALG_SHA_256 {
        Err(StatusCode::NotSupported)
    } else if buf_len < SHA256_HASH_SIZE {
        Err(StatusCode::BufferTooSmall)
    } else {
        Ok(SHA256_HASH_SIZE)
    }
}

/// The two requests the crypto service serves.
#[derive(Clone, Copy, Debug, PartialEq, Eq, Structural)]
pub enum CryptoOperation {
    SignHash,
    ComputeHash,
}

/// The operation a function identifier asks for.
pub open spec fn spec_operation_for(function_id: u16) -> Result<CryptoOperation, StatusCode> {
    if function_id == TFM_CRYPTO_ASYMMETRIC_SIGN_HASH_SID {
        Ok(CryptoOperation::SignHash)
    } else if function_id == TFM_CRYPTO_HASH_COMPUTE_SID {
        Ok(CryptoOperation::ComputeHash)
    } else {
        Err(StatusCode::NotSupported)
    }
}

/// The fields of the crypto request header that the service reads.
#[derive(Clone, Copy, Debug, PartialEq, Eq, Structural)]
pub struct CryptoPackIovec {
    pub function_id: u16,
    pub key_id: u32,
    pub alg: u32,
}

/// Size of the crypto request header (`key_id`, `alg`, `op_handle`,
/// `ad_length`, `plaintext_length`, a 16-byte AEAD nonce, its length,
/// `function_id`, `step`, `capacity`), laid out without padding.
pub const CRYPTO_PACK_IOVEC_SIZE: usize = 48;

/// The little-endian 16-bit number at `off` in `b`.
pub open spec fn spec_le16(b: Seq<u8>, off: int) -> int {
    b[off] + 256 * b[off + 1]
}

/// The little-endian 32-bit number at `off` in `b`.
pub open spec fn spec_le32(b: Seq<u8>, off: int) -> int {
    spec_le16(b, off) + 65536 * spec_le16(b, off + 2)
}

impl CryptoPackIovec {
    /// Reads the header from the bytes of the first input vector (in the
    /// targets' little-endian order): `key_id` at offset 0, `alg` at 4 and
    /// `function_id` at 40. `ProgrammerError` unless the vector holds
    /// exactly one header.
    pub fn from_bytes(buf: &[u8]) -> (r: Result<CryptoPackIovec, StatusCode>)
        ensures
            buf@.len() != CRYPTO_PACK_IOVEC_SIZE ==> r == Err::<CryptoPackIovec, StatusCode>(StatusCode::ProgrammerError),
            buf@.len() == CRYPTO_PACK_IOVEC_SIZE ==> r == Ok::<CryptoPackIovec, StatusCode>(
                (CryptoPackIovec {
                    function_id: spec_le16(buf@, 40) as u16,
                    key_id: spec_le32(buf@, 0) as u32,
                    alg: spec_le32(buf@, 4) as u32,
                }),
            ),
    {
        if buf.len() != CRYPTO_PACK_IOVEC_SIZE {
            return Err(StatusCode::ProgrammerError);
        }
        let key_id: u32 = (buf[0] as u32) + 256 * (buf[1] as u32) + 65536 * ((buf[2] as u32) + 256 * (buf[3] as u32));
        let alg: u32 = (buf[4] as u32) + 256 * (buf[5] as u32) + 65536 * ((buf[6] as u32) + 256 * (buf[7] as u32));
        let function_id: u16 = (buf[40] as u16) + 256 * (buf[41] as u16);
        Ok(CryptoPackIovec { function_id, key_id, alg })
    }
}

/// The crypto service, holding the P-256 secret scalar it signs with.
pub struct CryptoService {
    signing_key: [u8; 32],
}

impl CryptoService {
    /// The secret scalar, as bytes.
    pub closed spec fn key(&self) -> Seq<u8> {
        self.signing_key@
    }

    pub fn new(signing_key: [u8; 32]) -> (s: Self)
        ensures
            s.key() == signing_key@,
    {
        CryptoService { signing_key }
    }

    /// Signs a SHA-256 hash into the start of `signature_buf`. The hash must
    /// be 32 bytes (else `InvalidArgument`), the buffer at least 64 (else
    /// `BufferTooSmall`) and the key a valid scalar (else
    /// `InvalidArgument`); on success the signature is written and 64 is
    /// returned. On an error the buffer is left as it was.
    pub fn sign_hash(&self, hash: &[u8], signature_buf: &mut [u8]) -> (r: Result<usize, StatusCode>)
        ensures
            r == spec_sign_hash_result(self.key(), hash@, old(signature_buf)@.len()),
            r is Err ==> final(signature_buf)@ == old(signature_buf)@,
            r is Ok ==> final(signature_buf)@ == spec_p256_sign_prehash(self.key(), hash@) + old(
                signature_buf,
            )@.skip(P256_SIGNATURE_SIZE as int),
    {
        if hash.len() != SHA256_HASH_SIZE {
            return Err(StatusCode::InvalidArgument);
        }
        if signature_buf.len() < P256_SIGNATURE_SIZE {
            return Err(StatusCode::BufferTooSmall);
        }
        if !p256_scalar_is_valid(&self.signing_key) {
            return Err(StatusCode::InvalidArgument);
        }
        let signature = p256_sign_prehash(&self.signing_key, hash);
        write_prefix(signature_buf, &signature);
        Ok(P256_SIGNATURE_SIZE)
    }

    /// Hashes `input` with `alg` into the start of `hash_buf`. Only SHA-256
    /// is supported (else `NotSupported`); the buffer must hold 32 bytes
    /// (else `BufferTooSmall`). On an error the buffer is left as it was.
    pub fn compute_hash(alg: u32, input: &[u8], hash_buf: &mut [u8]) -> (r: Result<usize, StatusCode>)
        ensures
            r == spec_compute_hash_result(alg, old(hash_buf)@.len()),
            r is Err ==> final(hash_buf)@ == old(hash_buf)@,
            r is Ok ==> final(hash_buf)@ == spec_sha256(input@) + old(hash_buf)@.skip(
                SHA256_HASH_SIZE as int,
            ),
    {
        if alg != PSA_ALG_SHA_256 {
            return Err(StatusCode::NotSupported);
        }
        if hash_buf.len() < SHA256_HASH_SIZE {
            return Err(StatusCode::BufferTooSmall);
        }
        let digest = sha256_digest(input);
        write_prefix(hash_buf, &digest);
        Ok(SHA256_HASH_SIZE)
    }

    /// The operation a request header asks for: signing a hash, computing a
    /// hash, or `NotSupported` for any other function identifier.
    pub fn operation_for(function_id: u16) -> (r: Result<CryptoOperation, StatusCode>)
        ensures
            r == spec_operation_for(function_id),
    {
        if function_id == TFM_CRYPTO_ASYMMETRIC_SIGN_HASH_SID {
            Ok(CryptoOperation::SignHash)
        } else if function_id == TFM_CRYPTO_HASH_COMPUTE_SID {
            Ok(CryptoOperation::ComputeHash)
        } else {
            Err(StatusCode::NotSupported)
        }
    }

    /// Serves one request on its input vector and output vector, returning
    /// the outcome and the number of bytes written to the output vector:
    /// the result's length on success, nothing on failure.
    pub fn perform(&self, op: CryptoOperation, alg: u32, input: &[u8], output: &mut [u8]) -> (r: (
        Result<(), StatusCode>,
        usize,
    ))
        ensures
            op == CryptoOperation::SignHash ==> match spec_sign_hash_result(self.key(), input@, old(output)@.len()) {
                Ok(n) => r == (Ok::<(), StatusCode>(()), n) && final(output)@ == spec_p256_sign_prehash(
                    self.key(),
                    input@,
                ) + old(output)@.skip(n as int),
                Err(e) => r == (Err::<(), StatusCode>(e), 0usize) && final(output)@ == old(output)@,
            },
            op == CryptoOperation::ComputeHash ==> match spec_compute_hash_result(alg, old(output)@.len()) {
                Ok(n) => r == (Ok::<(), StatusCode>(()), n) && final(output)@ == spec_sha256(input@) + old(
                    output,
                )@.skip(n as int),
                Err(e) => r == (Err::<(), StatusCode>(e), 0usize) && final(output)@ == old(output)@,
            },
    {
        let result = match op {
            CryptoOperation::SignHash => self.sign_hash(input, output),
            CryptoOperation::ComputeHash => CryptoService::compute_hash(alg, input, output),
        };
        match result {
            Ok(written_len) => (Ok(()), written_len),
            Err(e) => (Err(e), 0),
        }
    }
}

} // verus!
