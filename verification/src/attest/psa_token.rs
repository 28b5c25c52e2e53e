//! The claims of a PSA initial attestation token and their CBOR encoding.
use vstd::prelude::*;

use crate::cbor::{
    cbor_array, cbor_bytes, cbor_i32, cbor_i64, cbor_map, cbor_str, cbor_u64, cbor_u8,
    lemma_cbor_head_len, spec_cbor_array, spec_cbor_bytes, spec_cbor_head, spec_cbor_head_len,
    spec_cbor_int, spec_cbor_map, spec_cbor_text,
};
use crate::status::StatusCode;
use vstd::string::StringSliceAdditionalSpecFns;

verus! {

/// PSA / EAT claim labels (RFC 9783 section 6).
#[derive(Clone, Copy, Debug, PartialEq, Eq, Structural)]
pub enum IatClaim {
    Nonce,
    InstanceId,
    ProfileDefinition,
    BootSeed,
    ClientId,
    SecurityLifecycle,
    ImplementationId,
    CertificationReference,
    SwComponents,
    VerificationService,
}

/// The numeric label of each claim.
pub open spec fn spec_claim_label(c: IatClaim) -> u32 {
    match c {
        IatClaim::Nonce => 10,
        IatClaim::InstanceId => 256,
        IatClaim::ProfileDefinition => 265,
        IatClaim::BootSeed => 268,
        IatClaim::ClientId => 2394,
        IatClaim::SecurityLifecycle => 2395,
        IatClaim::ImplementationId => 2396,
        IatClaim::CertificationReference => 2398,
        IatClaim::SwComponents => 2399,
        IatClaim::VerificationService => 2400,
    }
}

impl IatClaim {
    /// The claim's numeric label.
    pub fn label(self) -> (r: u32)
        ensures
            r == spec_claim_label(self),
    {
        match self {
            IatClaim::Nonce => 10,
            IatClaim::InstanceId => 256,
            IatClaim::ProfileDefinition => 265,
            IatClaim::BootSeed => 268,
            IatClaim::ClientId => 2394,
            IatClaim::SecurityLifecycle => 2395,
            IatClaim::ImplementationId => 2396,
            IatClaim::CertificationReference => 2398,
            IatClaim::SwComponents => 2399,
            IatClaim::VerificationService => 2400,
        }
    }
}

/// One PSA software component (RFC 9783 section 4.4.1). Its map is written
/// in the order signer-id (5), measurement-value (2), measurement-type (1).
#[derive(Clone, Copy, Debug, PartialEq, Eq)]
pub struct SwComponent<'a> {
    pub measurement_type: Option<&'a str>,
    pub measurement_value: &'a [u8],
    pub signer_id: &'a [u8],
}

#[derive(Clone, Copy, Debug, PartialEq, Eq)]
pub enum AttestClaimValue<'a> {
    Bytes(&'a [u8]),
    Text(&'a str),
    Unsigned(u64),
    Signed(i64),
    SwComponents(&'a [SwComponent<'a>]),
}

#[derive(Clone, Copy, Debug, PartialEq, Eq)]
pub struct AttestClaim<'a> {
    pub key: IatClaim,
    pub value: AttestClaimValue<'a>,
}

/// The encoding of one software component: a map of two entries, or three
/// when it has a measurement type.
pub open spec fn spec_sw_component(c: SwComponent) -> Seq<u8> {
    let entries: u64 = if c.measurement_type is Some { 3 } else { 2 };
    let base = spec_cbor_map(entries) + spec_cbor_head(0, 5) + spec_cbor_bytes(c.signer_id@) + spec_cbor_head(0, 2)
        + spec_cbor_bytes(c.measurement_value@);
    match c.measurement_type {
        Some(mt) => base + spec_cbor_head(0, 1) + spec_cbor_text(mt.spec_bytes()),
        None => base,
    }
}

/// The encodings of components one after the other.
pub open spec fn spec_sw_component_items(cs: Seq<SwComponent>) -> Seq<u8>
    decreases cs.len(),
{
    if cs.len() == 0 {
        Seq::empty()
    } else {
        spec_sw_component_items(cs.drop_last()) + spec_sw_component(cs.last())
    }
}

/// The encoding of a list of components: an array head, then each component.
pub open spec fn spec_sw_components(cs: Seq<SwComponent>) -> Seq<u8> {
    spec_cbor_array(cs.len() as u64) + spec_sw_component_items(cs)
}

/// The encoding of a claim's value.
pub open spec fn spec_claim_value(v: AttestClaimValue) -> Seq<u8> {
    match v {
        AttestClaimValue::Bytes(b) => spec_cbor_bytes(b@),
        AttestClaimValue::Text(t) => spec_cbor_text(t.spec_bytes()),
        AttestClaimValue::Unsigned(u) => spec_cbor_head(0, u),
        AttestClaimValue::Signed(s) => spec_cbor_int(s as int),
        AttestClaimValue::SwComponents(cs) => spec_sw_components(cs@),
    }
}

/// The encoding of one claim: its label as an integer, then its value.
pub open spec fn spec_claim(c: AttestClaim) -> Seq<u8> {
    spec_cbor_int(spec_claim_label(c.key) as int) + spec_claim_value(c.value)
}

/// The encodings of claims one after the other, in the order given.
pub open spec fn spec_claim_items(cs: Seq<AttestClaim>) -> Seq<u8>
    decreases cs.len(),
{
    if cs.len() == 0 {
        Seq::empty()
    } else {
        spec_claim_items(cs.drop_last()) + spec_claim(cs.last())
    }
}

/// The encodings of two lists of claims, one after the other, are those of
/// the joined list.
pub proof fn lemma_claim_items_concat(a: Seq<AttestClaim>, b: Seq<AttestClaim>)
    ensures
        spec_claim_items(a + b) == spec_claim_items(a) + spec_claim_items(b),
    decreases b.len(),
{
    if b.len() == 0 {
        assert(a + b =~= a);
        assert(spec_claim_items(a) + spec_claim_items(b) =~= spec_claim_items(a));
    } else {
        lemma_claim_items_concat(a, b.drop_last());
        assert((a + b).drop_last() =~= a + b.drop_last());
        assert((a + b).last() == b.last());
        assert(spec_claim_items(a + b) =~= spec_claim_items(a) + spec_claim_items(b));
    }
}

/// The token payload: a map of the claims, in the order given.
pub open spec fn spec_payload(cs: Seq<AttestClaim>) -> Seq<u8> {
    spec_cbor_map(cs.len() as u64) + spec_claim_items(cs)
}

fn encode_sw_components(out: &mut Vec<u8>, components: &[SwComponent]) -> (r: ())
    ensures
        final(out)@ == old(out)@ + spec_sw_components(components@),
{
    let mut head = cbor_array(components.len() as u64);
    out.append(&mut head);
    let mut i: usize = 0;
    while i < components.len()
        invariant
            0 <= i <= components@.len(),
            out@ == old(out)@ + spec_cbor_array(components@.len() as u64) + spec_sw_component_items(components@.take(i as int)),
        decreases components@.len() - i,
    {
        let comp = components[i];
        let entries: u64 = if comp.measurement_type.is_some() { 3 } else { 2 };
        let mut m = cbor_map(entries);
        let mut k5 = cbor_u8(5);
        let mut sid = cbor_bytes(comp.signer_id);
        let mut k2 = cbor_u8(2);
        let mut mv = cbor_bytes(comp.measurement_value);
        let ghost before = out@;
        out.append(&mut m);
        out.append(&mut k5);
        out.append(&mut sid);
        out.append(&mut k2);
        out.append(&mut mv);
        match comp.measurement_type {
            Some(mt) => {
                let mut k1 = cbor_u8(1);
                let mut t = cbor_str(mt);
                out.append(&mut k1);
                out.append(&mut t);
            },
            None => {},
        }
        proof {
            assert(components@.take(i + 1).drop_last() =~= components@.take(i as int));
            assert(components@.take(i + 1).last() == comp);
            assert(out@ =~= before + spec_sw_component(comp));
        }
        i = i + 1;
    }
    proof {
        assert(components@.take(components@.len() as int) =~= components@);
    }
}

fn encode_claim_value(out: &mut Vec<u8>, value: AttestClaimValue) -> (r: ())
    ensures
        final(out)@ == old(out)@ + spec_claim_value(value),
{
    match value {
        AttestClaimValue::Bytes(bytes) => {
            let mut e = cbor_bytes(bytes);
            out.append(&mut e);
        },
        AttestClaimValue::Text(text) => {
            let mut e = cbor_str(text);
            out.append(&mut e);
        },
        AttestClaimValue::Unsigned(v) => {
            let mut e = cbor_u64(v);
            out.append(&mut e);
        },
        AttestClaimValue::Signed(v) => {
            let mut e = cbor_i64(v);
            out.append(&mut e);
        },
        AttestClaimValue::SwComponents(components) => {
            encode_sw_components(out, components);
        },
    }
}

/// The payload of the given claims, as bytes.
pub fn encode_payload_to_vec(claims: &[AttestClaim]) -> (r: Vec<u8>)
    ensures
        r@ == spec_payload(claims@),
{
    let mut out = cbor_map(claims.len() as u64);
    let mut i: usize = 0;
    while i < claims.len()
        invariant
            0 <= i <= claims@.len(),
            out@ == spec_cbor_map(claims@.len() as u64) + spec_claim_items(claims@.take(i as int)),
        decreases claims@.len() - i,
    {
        let claim = claims[i];
        let ghost before = out@;
        let mut key = cbor_i32(claim.key.label() as i32);
        out.append(&mut key);
        encode_claim_value(&mut out, claim.value);
        proof {
            assert(claims@.take(i + 1).drop_last() =~= claims@.take(i as int));
            assert(claims@.take(i + 1).last() == claim);
            assert(out@ =~= before + spec_claim(claim));
        }
        i = i + 1;
    }
    proof {
        assert(claims@.take(claims@.len() as int) =~= claims@);
    }
    out
}

/// Encodes the claims as the token payload into `out`. Fails with
/// `BufferTooSmall` when the payload does not fit; otherwise returns its
/// length, with the payload at the start of `out` and the rest untouched.
pub fn encode_payload(claims: &[AttestClaim], out: &mut [u8]) -> (r: Result<usize, StatusCode>)
    ensures
        spec_payload(claims@).len() > old(out)@.len() ==> r == Err::<usize, StatusCode>(StatusCode::BufferTooSmall)
            && final(out)@ == old(out)@,
        spec_payload(claims@).len() <= old(out)@.len() ==> r == Ok::<usize, StatusCode>(spec_payload(claims@).len() as usize)
            && final(out)@ == spec_payload(claims@) + old(out)@.skip(spec_payload(claims@).len() as int),
{
    let payload = encode_payload_to_vec(claims);
    if payload.len() > out.len() {
        return Err(StatusCode::BufferTooSmall);
    }
    let n = payload.len();
    let mut i: usize = 0;
    while i < n
        invariant
            n == payload@.len(),
            n <= out@.len(),
            out@.len() == old(out)@.len(),
            0 <= i <= n,
            forall|k: int| 0 <= k < i ==> out@[k] == payload@[k],
            forall|k: int| i <= k < out@.len() ==> out@[k] == old(out)@[k],
        decreases n - i,
    {
        out[i] = payload[i];
        i = i + 1;
    }
    proof {
        assert(out@ =~= payload@ + old(out)@.skip(n as int));
    }
    Ok(n)
}

/// What can go wrong while building and signing a COSE_Sign1 token.
#[derive(Clone, Copy, Debug, PartialEq, Eq, Structural)]
pub enum CoseSign1Error {
    BufferTooSmall,
    Unknown,
    InvalidSigningKey,
    InvalidPayload,
    Signature,
    CborEncoding,
}

/// The status a token error is reported with: `BufferTooSmall` for a token
/// buffer too small, `InvalidArgument` for anything else.
pub fn map_cose_error(err: CoseSign1Error) -> (r: StatusCode)
    ensures
        r == (if err == CoseSign1Error::BufferTooSmall {
            StatusCode::BufferTooSmall
        } else {
            StatusCode::InvalidArgument
        }),
{
    match err {
        CoseSign1Error::BufferTooSmall => StatusCode::BufferTooSmall,
        _ => StatusCode::InvalidArgument,
    }
}

/// Size of an ES256 signature.
pub const ES256_SIGNATURE_SIZE: usize = 64;

/// The outcome of an ES256 signing request to the crypto service, which
/// wrote `signature` and reported `result`: the signature when exactly 64
/// bytes were written, `BufferTooSmall` when fewer or more were or the
/// service said so, `Unknown` for any other failure.
pub fn es256_signature_result(result: Result<usize, StatusCode>, signature: [u8; 64]) -> (r: Result<
    [u8; 64],
    CoseSign1Error,
>)
    ensures
        r == match result {
            Ok(n) => if n == ES256_SIGNATURE_SIZE {
                Ok(signature)
            } else {
                Err(CoseSign1Error::BufferTooSmall)
            },
            Err(StatusCode::BufferTooSmall) => Err(CoseSign1Error::BufferTooSmall),
            Err(_) => Err(CoseSign1Error::Unknown),
        },
{
    match result {
        Ok(written_len) => {
            if written_len == ES256_SIGNATURE_SIZE {
                Ok(signature)
            } else {
                Err(CoseSign1Error::BufferTooSmall)
            }
        },
        Err(status) => {
            if status == StatusCode::BufferTooSmall {
                Err(CoseSign1Error::BufferTooSmall)
            } else {
                Err(CoseSign1Error::Unknown)
            }
        },
    }
}

/// Bytes a COSE_Sign1 token (ES256, no key id) adds around its payload byte
/// string: tag, array head, protected header, empty unprotected header and
/// the 64-byte signature.
pub const COSE_SIGN1_OVERHEAD: usize = 73;

/// The size of the token for a payload of `payload_len` bytes, when it fits
/// in a machine word.
pub open spec fn spec_token_size(payload_len: nat) -> int {
    payload_len + spec_cbor_head_len(payload_len as u64) + COSE_SIGN1_OVERHEAD
}

/// The exact size of the initial attestation token for `claims`: the payload
/// wrapped in a byte string, plus the COSE_Sign1 overhead. Fails with
/// `BufferTooSmall` only if that size does not fit in a machine word.
pub fn compute_initial_attestation_token_size(claims: &[AttestClaim], key_id: u32) -> (r: Result<usize, StatusCode>)
    ensures
        spec_token_size(spec_payload(claims@).len()) <= usize::MAX ==> r == Ok::<usize, StatusCode>(
            spec_token_size(spec_payload(claims@).len()) as usize,
        ),
        spec_token_size(spec_payload(claims@).len()) > usize::MAX ==> r == Err::<usize, StatusCode>(
            StatusCode::BufferTooSmall,
        ),
{
    let payload = encode_payload_to_vec(claims);
    let payload_len = payload.len();
    let bstr_header_len: usize = if payload_len <= 23 {
        1
    } else if payload_len <= 0xff {
        2
    } else if payload_len <= 0xffff {
        3
    } else if payload_len <= 0xffff_ffff {
        5
    } else {
        9
    };
    let payload_bstr_len = match payload_len.checked_add(bstr_header_len) {
        Some(v) => v,
        None => {
            return Err(StatusCode::BufferTooSmall);
        },
    };
    match payload_bstr_len.checked_add(COSE_SIGN1_OVERHEAD) {
        Some(v) => Ok(v),
        None => Err(StatusCode::BufferTooSmall),
    }
}

/// The size the token computation predicts is the length of the payload
/// wrapped in a byte string plus the COSE_Sign1 overhead.
pub proof fn law_token_size_is_wrapped_payload(claims: Seq<AttestClaim>)
    ensures
        spec_token_size(spec_payload(claims).len()) == spec_cbor_bytes(spec_payload(claims)).len()
            + COSE_SIGN1_OVERHEAD,
{
    lemma_cbor_head_len(2, spec_payload(claims).len() as u64);
}

} // verus!
