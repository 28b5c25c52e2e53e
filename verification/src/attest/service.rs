//! The initial attestation service: the boot record it reads, the claims it
//! gathers, the checks on a token request and the size of the answer.
use vstd::prelude::*;

use crate::attest::psa_token::{
    compute_initial_attestation_token_size, lemma_claim_items_concat, spec_claim_items,
    spec_payload, spec_sw_component, spec_sw_component_items, spec_token_size, AttestClaim, AttestClaimValue, IatClaim, SwComponent,
};
use crate::cbor::{spec_cbor_array, spec_cbor_bytes, spec_cbor_head, spec_cbor_int, spec_cbor_map};
use crate::spm_api::PsaMsg;
use crate::status::StatusCode;
use vstd::string::StringSliceAdditionalSpecFns;
use vstd::utf8::valid_utf8;

verus! {

/// Largest token the service hands out (the TF-M default buffer size).
pub const PSA_INITIAL_ATTEST_MAX_TOKEN_SIZE: usize = 0x250;

/// Largest certification reference (EAN-13, a dash and five digits).
pub const CERTIFICATION_REF_MAX_SIZE: usize = 19;

/// Most claims (the nonce and the caller's) one token carries.
pub const MAX_TOTAL_CLAIMS: usize = 16;

/// Key the token is signed with.
pub const TEMP_KEY_ID: u32 = 0x1234_5678;

/// Magic number at the start of the boot record shared by the bootloader.
pub const SHARED_DATA_TLV_INFO_MAGIC: u16 = 0x2016;

/// Record type of a boot measurement value.
pub const IAS_MEASURE_VALUE_TYPE: u16 = 0x1008;

/// Record type of a boot signer id.
pub const IAS_SIGNER_ID_TYPE: u16 = 0x1001;

/// The little-endian 16-bit number at `off` in `data`.
pub open spec fn spec_u16_le_at(data: Seq<u8>, off: int) -> int {
    data[off] + 256 * data[off + 1]
}

/// Reads the little-endian 16-bit number at the start of `data`, if it has
/// two bytes.
pub fn get_u16_le(data: &[u8]) -> (r: Option<u16>)
    ensures
        data@.len() < 2 ==> r is None,
        data@.len() >= 2 ==> r == Some(spec_u16_le_at(data@, 0) as u16),
{
    if data.len() < 2 {
        None
    } else {
        Some((data[0] as u16) + (data[1] as u16) * 256)
    }
}

/// The UTF-8 text in `bytes`, through `core::str::from_utf8`, which accepts
/// exactly the valid UTF-8 byte strings and then views the same bytes.
#[verifier::external_body]
fn str_from_utf8<'a>(bytes: &'a [u8]) -> (r: Option<&'a str>)
    ensures
        r is Some <==> valid_utf8(bytes@),
        r is Some ==> r->Some_0.spec_bytes() == bytes@,
{
    core::str::from_utf8(bytes).ok()
}

/// The first `len` bytes of `buf` as text: `InvalidArgument` if `buf` is
/// shorter or those bytes are not UTF-8.
pub fn parse_utf8_claim<'a>(buf: &'a [u8], len: usize) -> (r: Result<&'a str, StatusCode>)
    ensures
        (len <= buf@.len() && valid_utf8(buf@.take(len as int))) <==> r is Ok,
        r is Ok ==> r->Ok_0.spec_bytes() == buf@.take(len as int),
        r is Err ==> r == Err::<&str, StatusCode>(StatusCode::InvalidArgument),
{
    if len > buf.len() {
        return Err(StatusCode::InvalidArgument);
    }
    let prefix = &buf[0..len];
    proof {
        assert(prefix@ =~= buf@.take(len as int));
    }
    match str_from_utf8(prefix) {
        Some(s) => Ok(s),
        None => Err(StatusCode::InvalidArgument),
    }
}

/// The records of a boot record, walked from `offset` up to `tot_len`: each
/// has a type and a length (both little-endian 16-bit) and then its
/// payload. The last measurement value and the last signer id seen are
/// kept, as byte ranges of `data`. `None` when a payload runs past the end
/// of `data`.
pub open spec fn spec_tlv_walk(
    data: Seq<u8>,
    tot_len: int,
    offset: int,
    measure: Option<(int, int)>,
    signer: Option<(int, int)>,
) -> Option<(Option<(int, int)>, Option<(int, int)>)>
    decreases data.len() - offset,
{
    if offset + 4 <= tot_len && 0 <= offset {
        let tlv_type = spec_u16_le_at(data, offset);
        let tlv_len = spec_u16_le_at(data, offset + 2);
        let start = offset + 4;
        if start + tlv_len > data.len() {
            None
        } else {
            let measure2 = if tlv_type == IAS_MEASURE_VALUE_TYPE {
                Some((start, start + tlv_len))
            } else {
                measure
            };
            let signer2 = if tlv_type == IAS_SIGNER_ID_TYPE {
                Some((start, start + tlv_len))
            } else {
                signer
            };
            spec_tlv_walk(data, tot_len, start + tlv_len, measure2, signer2)
        }
    } else {
        Some((measure, signer))
    }
}

/// The byte ranges of the measurement value and the signer id a boot record
/// holds: it starts with the magic number and its total length (at least
/// the four header bytes, at most the bytes given), and both records must
/// be present.
pub open spec fn spec_parse_boot_data(data: Seq<u8>) -> Option<((int, int), (int, int))> {
    if data.len() < 4 {
        None
    } else {
        let magic = spec_u16_le_at(data, 0);
        let tot_len = spec_u16_le_at(data, 2);
        if magic != SHARED_DATA_TLV_INFO_MAGIC || tot_len > data.len() || tot_len < 4 {
            None
        } else {
            match spec_tlv_walk(data, tot_len, 4, None, None) {
                Some((Some(m), Some(s))) => Some((m, s)),
                _ => None,
            }
        }
    }
}

/// A byte range moved `n` bytes on.
pub open spec fn spec_shift_range(r: Option<(int, int)>, n: int) -> Option<(int, int)> {
    match r {
        Some((a, b)) => Some((a + n, b + n)),
        None => None,
    }
}

/// The ranges a walk found, moved `n` bytes on.
pub open spec fn spec_shift_walk(w: Option<(Option<(int, int)>, Option<(int, int)>)>, n: int) -> Option<
    (Option<(int, int)>, Option<(int, int)>),
> {
    match w {
        Some((m, s)) => Some((spec_shift_range(m, n), spec_shift_range(s, n))),
        None => None,
    }
}

/// Walking records that sit `n` bytes further on finds the same records,
/// moved `n` bytes on.
proof fn lemma_walk_shift(
    d: Seq<u8>,
    d2: Seq<u8>,
    n: int,
    tot: int,
    off: int,
    m: Option<(int, int)>,
    s: Option<(int, int)>,
)
    requires
        0 <= n,
        4 <= off,
        tot <= d.len(),
        d2.len() == d.len() + n,
        forall|k: int| 4 <= k < d.len() ==> d2[k + n] == d[k],
    ensures
        spec_tlv_walk(d2, tot + n, off + n, spec_shift_range(m, n), spec_shift_range(s, n)) == spec_shift_walk(
            spec_tlv_walk(d, tot, off, m, s),
            n,
        ),
    decreases d.len() - off,
{
    if off + 4 <= tot {
        assert(d2[off + n] == d[off]);
        assert(d2[off + 1 + n] == d[off + 1]);
        assert(d2[off + 2 + n] == d[off + 2]);
        assert(d2[off + 3 + n] == d[off + 3]);
        let tlv_type = spec_u16_le_at(d, off);
        let tlv_len = spec_u16_le_at(d, off + 2);
        assert(spec_u16_le_at(d2, off + n) == tlv_type);
        assert(spec_u16_le_at(d2, off + n + 2) == tlv_len);
        let start = off + 4;
        if start + tlv_len <= d.len() {
            let m2 = if tlv_type == IAS_MEASURE_VALUE_TYPE {
                Some((start, start + tlv_len))
            } else {
                m
            };
            let s2 = if tlv_type == IAS_SIGNER_ID_TYPE {
                Some((start, start + tlv_len))
            } else {
                s
            };
            lemma_walk_shift(d, d2, n, tot, start + tlv_len, m2, s2);
        }
    }
}

/// Records of other types do not change what a boot record says: putting
/// a complete record of any type but the measurement value and the signer
/// id right after the header (and growing the total length by its size)
/// leaves the parse as it was, with the measurement value and the signer id
/// found at the same bytes, moved on by the inserted record's size.
pub proof fn law_boot_record_skips_other_records(d: Seq<u8>, t: u16, payload: Seq<u8>)
    requires
        d.len() >= 4,
        spec_u16_le_at(d, 2) + 4 + payload.len() <= 0xffff,
        t != IAS_MEASURE_VALUE_TYPE,
        t != IAS_SIGNER_ID_TYPE,
    ensures
        ({
            let n: int = 4 + payload.len() as int;
            let tot2 = spec_u16_le_at(d, 2) + n;
            let d2 = seq![
                d[0],
                d[1],
                (tot2 % 256) as u8,
                (tot2 / 256) as u8,
                (t % 256) as u8,
                (t / 256) as u8,
                (payload.len() % 256) as u8,
                (payload.len() / 256) as u8,
            ] + payload + d.skip(4);
            spec_parse_boot_data(d2) == match spec_parse_boot_data(d) {
                Some((m, s)) => Some(((m.0 + n, m.1 + n), (s.0 + n, s.1 + n))),
                None => None,
            }
        }),
{
    let n: int = 4 + payload.len() as int;
    let tot = spec_u16_le_at(d, 2);
    let tot2 = tot + n;
    let pl = payload.len() as int;
    let hdr = seq![
        d[0],
        d[1],
        (tot2 % 256) as u8,
        (tot2 / 256) as u8,
        (t % 256) as u8,
        (t / 256) as u8,
        (pl % 256) as u8,
        (pl / 256) as u8,
    ];
    let d2 = hdr + payload + d.skip(4);
    assert(d2.len() == d.len() + n);
    assert(tot2 % 256 + 256 * (tot2 / 256) == tot2 && 0 <= tot2 % 256 < 256 && 0 <= tot2 / 256 < 256) by (nonlinear_arith)
        requires
            0 <= tot2 <= 0xffff,
    ;
    assert((t % 256) + 256 * (t / 256) == t && (t / 256) < 256) by (nonlinear_arith);
    assert(pl % 256 + 256 * (pl / 256) == pl && 0 <= pl % 256 < 256 && 0 <= pl / 256 < 256) by (nonlinear_arith)
        requires
            0 <= pl <= 0xffff,
    ;
    assert(d2[0] == d[0] && d2[1] == d[1]);
    assert(spec_u16_le_at(d2, 0) == spec_u16_le_at(d, 0));
    assert(spec_u16_le_at(d2, 2) == tot2);
    assert(spec_u16_le_at(d2, 4) == t);
    assert(spec_u16_le_at(d2, 6) == pl);
    assert forall|k: int| 4 <= k < d.len() implies d2[k + n] == d[k] by {
        assert(d2[k + n] == d.skip(4)[k - 4]);
    }
    if tot <= d.len() && 4 <= tot {
        lemma_walk_shift(d, d2, n, tot, 4, None, None);
        assert(spec_tlv_walk(d2, tot2, 4, None, None) == spec_tlv_walk(d2, tot2, 4 + n, None, None));
    }
}

/// Reads the software component the bootloader measured from its boot
/// record: `None` unless the record is well formed and holds both a
/// measurement value and a signer id.
pub fn parse_boot_data<'a>(data: &'a [u8]) -> (r: Option<SwComponent<'a>>)
    ensures
        match spec_parse_boot_data(data@) {
            None => r is None,
            Some((m, s)) => r matches Some(c) && c.measurement_type is None
                && c.measurement_value@ == data@.subrange(m.0, m.1) && c.signer_id@ == data@.subrange(
                s.0,
                s.1,
            ),
        },
{
    let magic = match get_u16_le(data) {
        Some(v) => v,
        None => {
            return None;
        },
    };
    if data.len() < 4 {
        return None;
    }
    let tot_len: usize = match get_u16_le(&data[2..data.len()]) {
        Some(v) => v as usize,
        None => {
            return None;
        },
    };
    proof {
        assert(spec_u16_le_at(data@.subrange(2, data@.len() as int), 0) == spec_u16_le_at(data@, 2));
    }
    if magic != SHARED_DATA_TLV_INFO_MAGIC || tot_len > data.len() || tot_len < 4 {
        return None;
    }
    let mut measure: Option<(usize, usize)> = None;
    let mut signer: Option<(usize, usize)> = None;
    let mut offset: usize = 4;
    while offset < tot_len && tot_len - offset >= 4
        invariant
            4 <= tot_len <= data@.len(),
            4 <= offset,
            offset <= data@.len(),
            spec_parse_boot_data(data@) == (match spec_tlv_walk(
                data@,
                tot_len as int,
                offset as int,
                match measure {
                    Some(m) => Some((m.0 as int, m.1 as int)),
                    None => None,
                },
                match signer {
                    Some(s) => Some((s.0 as int, s.1 as int)),
                    None => None,
                },
            ) {
                Some((Some(m), Some(s))) => Some((m, s)),
                _ => None,
            }),
            measure matches Some(m) ==> m.0 <= m.1 <= data@.len(),
            signer matches Some(s) ==> s.0 <= s.1 <= data@.len(),
        decreases data@.len() - offset,
    {
        let tlv_type = match get_u16_le(&data[offset..data.len()]) {
            Some(v) => v,
            None => {
                return None;
            },
        };
        let tlv_len: usize = match get_u16_le(&data[offset + 2..data.len()]) {
            Some(v) => v as usize,
            None => {
                return None;
            },
        };
        proof {
            assert(spec_u16_le_at(data@.subrange(offset as int, data@.len() as int), 0) == spec_u16_le_at(
                data@,
                offset as int,
            ));
            assert(spec_u16_le_at(data@.subrange(offset + 2, data@.len() as int), 0) == spec_u16_le_at(
                data@,
                offset + 2,
            ));
        }
        offset = offset + 4;
        if tlv_len > data.len() - offset {
            return None;
        }
        if tlv_type == IAS_MEASURE_VALUE_TYPE {
            measure = Some((offset, offset + tlv_len));
        }
        if tlv_type == IAS_SIGNER_ID_TYPE {
            signer = Some((offset, offset + tlv_len));
        }
        offset = offset + tlv_len;
    }
    match (measure, signer) {
        (Some(m), Some(s)) => Some(
            SwComponent {
                measurement_type: None,
                measurement_value: &data[m.0..m.1],
                signer_id: &data[s.0..s.1],
            },
        ),
        _ => None,
    }
}


/// Builds a claim from its label and value.
pub fn claim<'a>(key: IatClaim, value: AttestClaimValue<'a>) -> (r: AttestClaim<'a>)
    ensures
        r.key == key,
        r.value == value,
{
    AttestClaim { key, value }
}

/// Challenge sizes a token can be asked for: 32, 48 or 64 bytes.
pub open spec fn spec_challenge_size_is_supported(challenge_size: usize) -> bool {
    challenge_size == 32 || challenge_size == 48 || challenge_size == 64
}

/// The claims of a token: the nonce first, then the caller's, in order.
pub open spec fn spec_token_claims<'a>(challenge: &'a [u8], additional: Seq<AttestClaim<'a>>) -> Seq<AttestClaim<'a>> {
    seq![AttestClaim { key: IatClaim::Nonce, value: AttestClaimValue::Bytes(challenge) }] + additional
}

/// The payload of a token whose nonce has the bytes `nonce`.
pub open spec fn spec_nonce_payload(nonce: Seq<u8>, additional: Seq<AttestClaim>) -> Seq<u8> {
    spec_cbor_map((additional.len() + 1) as u64) + spec_cbor_int(10) + spec_cbor_bytes(nonce) + spec_claim_items(
        additional,
    )
}

/// The payload of the nonce claim followed by other claims.
pub proof fn lemma_token_claims_payload(challenge: &[u8], additional: Seq<AttestClaim>)
    ensures
        spec_payload(spec_token_claims(challenge, additional)) == spec_nonce_payload(challenge@, additional),
{
    let first = seq![AttestClaim { key: IatClaim::Nonce, value: AttestClaimValue::Bytes(challenge) }];
    lemma_claim_items_concat(first, additional);
    assert(first.drop_last() =~= Seq::<AttestClaim>::empty());
    assert(spec_claim_items(first.drop_last()) =~= Seq::<u8>::empty());
    assert(spec_claim_items(first) =~= spec_cbor_int(10) + spec_cbor_bytes(challenge@));
    assert(spec_payload(spec_token_claims(challenge, additional)) =~= spec_nonce_payload(
        challenge@,
        additional,
    ));
}

/// The size a token size request reports is the size of the token built on
/// any challenge of that size: the token's size depends on the challenge's
/// length, never on its bytes.
pub proof fn law_token_size_matches_token(challenge: &[u8], additional: Seq<AttestClaim>)
    requires
        spec_challenge_size_is_supported(challenge@.len() as usize),
        additional.len() + 1 <= MAX_TOTAL_CLAIMS,
        spec_token_size(spec_payload(spec_token_claims(challenge, additional)).len()) <= usize::MAX,
    ensures
        spec_token_size_result(challenge@.len() as usize, additional) == Ok::<usize, StatusCode>(
            spec_token_size(spec_payload(spec_token_claims(challenge, additional)).len()) as usize,
        ),
{
    lemma_token_claims_payload(challenge, additional);
    let zeros = Seq::new(challenge@.len(), |i: int| 0u8);
    assert(spec_nonce_payload(zeros, additional).len() == spec_nonce_payload(challenge@, additional).len());
}

/// What the token size request answers for a challenge size and the
/// caller's claims.
pub open spec fn spec_token_size_result(challenge_size: usize, additional: Seq<AttestClaim>) -> Result<usize, StatusCode> {
    if !spec_challenge_size_is_supported(challenge_size) || additional.len() + 1 > MAX_TOTAL_CLAIMS {
        Err(StatusCode::InvalidArgument)
    } else {
        let size = spec_token_size(
            spec_nonce_payload(Seq::new(challenge_size as nat, |i: int| 0u8), additional).len(),
        );
        if size <= usize::MAX {
            Ok(size as usize)
        } else {
            Err(StatusCode::BufferTooSmall)
        }
    }
}

/// The encoding of a software component without a measurement type, from
/// its signer id and measurement value.
pub open spec fn spec_plain_component(signer: Seq<u8>, measure: Seq<u8>) -> Seq<u8> {
    spec_cbor_map(2) + spec_cbor_head(0, 5) + spec_cbor_bytes(signer) + spec_cbor_head(0, 2) + spec_cbor_bytes(
        measure,
    )
}

/// The encoded claims a token size request adds for the boot state: the
/// boot seed, then the list of the components the boot record holds (none
/// when there is no record or it does not parse).
pub open spec fn spec_boot_claim_items(seed: Seq<u8>, record: Option<Seq<u8>>) -> Seq<u8> {
    let components = match record {
        Some(rec) => match spec_parse_boot_data(rec) {
            Some((m, s)) => spec_cbor_array(1) + spec_plain_component(rec.subrange(s.0, s.1), rec.subrange(m.0, m.1)),
            None => spec_cbor_array(0),
        },
        None => spec_cbor_array(0),
    };
    spec_cbor_int(268) + spec_cbor_bytes(seed) + spec_cbor_int(2399) + components
}

/// What the token size request answers for a challenge size, the boot seed
/// and the boot record.
pub open spec fn spec_boot_token_size_result(challenge_size: usize, seed: Seq<u8>, record: Option<Seq<u8>>) -> Result<
    usize,
    StatusCode,
> {
    if !spec_challenge_size_is_supported(challenge_size) {
        Err(StatusCode::InvalidArgument)
    } else {
        let size = spec_token_size(
            (spec_cbor_map(3) + spec_cbor_int(10) + spec_cbor_bytes(Seq::new(challenge_size as nat, |i: int| 0u8))
                + spec_boot_claim_items(seed, record)).len(),
        );
        if size <= usize::MAX {
            Ok(size as usize)
        } else {
            Err(StatusCode::BufferTooSmall)
        }
    }
}

/// Whether a request carries exactly one input vector and one output
/// vector, both the first.
pub open spec fn spec_has_exactly_one_iovec(msg: PsaMsg) -> bool {
    &&& msg.in_size[0].spec_option() is Some
    &&& msg.out_size[0].spec_option() is Some
    &&& forall|i: int| 1 <= i < 4 ==> (#[trigger] msg.in_size[i]).spec_option() is None
    &&& forall|i: int| 1 <= i < 4 ==> (#[trigger] msg.out_size[i]).spec_option() is None
}

/// Message type of a token request.
pub const PSA_ATTEST_GET_TOKEN: i32 = 1001;

/// Message type of a token size request.
pub const PSA_ATTEST_GET_TOKEN_SIZE: i32 = 1002;

/// The two requests the service answers.
#[derive(Clone, Copy, Debug, PartialEq, Eq, Structural)]
pub enum AttestRequest {
    GetToken,
    GetTokenSize,
}

/// What a request asks for: `InvalidArgument` unless it carries exactly
/// one input and one output vector, `NotSupported` for an unknown type.
pub open spec fn spec_request_for(msg: PsaMsg) -> Result<AttestRequest, StatusCode> {
    if !spec_has_exactly_one_iovec(msg) {
        Err(StatusCode::InvalidArgument)
    } else if msg.msg_type == PSA_ATTEST_GET_TOKEN {
        Ok(AttestRequest::GetToken)
    } else if msg.msg_type == PSA_ATTEST_GET_TOKEN_SIZE {
        Ok(AttestRequest::GetTokenSize)
    } else {
        Err(StatusCode::NotSupported)
    }
}

/// What the hardware platform tells the attestation service. Each method
/// may fail with a status the service passes on. The spec functions give the
/// answer this platform gives to each question: the status, the bytes of a
/// fixed-size identity, and the length of a text (whose bytes the method
/// writes at the start of the buffer).
pub trait AttestPlatform {
    /// The lifecycle code, or the error, this platform reports.
    spec fn spec_security_lifecycle(&self) -> Result<u32, StatusCode>;

    /// The length of the verification service indicator written into a
    /// buffer of `buf_len` bytes, or the error.
    spec fn spec_verification_service(&self, buf_len: usize) -> Result<usize, StatusCode>;

    /// The length of the profile definition written into a buffer of
    /// `buf_len` bytes, or the error.
    spec fn spec_profile_definition(&self, buf_len: usize) -> Result<usize, StatusCode>;

    /// The boot seed, or the error.
    spec fn spec_boot_seed(&self) -> Result<[u8; 32], StatusCode>;

    /// The implementation id, or the error.
    spec fn spec_implementation_id(&self) -> Result<[u8; 32], StatusCode>;

    /// The instance id, or the error.
    spec fn spec_instance_id(&self) -> Result<[u8; 33], StatusCode>;

    /// The length of the certification reference written, or the error.
    spec fn spec_cert_ref(&self) -> Result<usize, StatusCode>;

    /// The boot record, if the bootloader shared one.
    spec fn spec_boot_record(&self) -> Option<&'static [u8]>;

    /// The security lifecycle of the device as a numeric lifecycle code.
    fn security_lifecycle(&self) -> (r: Result<u32, StatusCode>)
        ensures
            r == self.spec_security_lifecycle(),
    ;

    /// Writes the verification service indicator (UTF-8 text) and returns
    /// the number of bytes written.
    fn verification_service(&self, buf: &mut [u8]) -> (r: Result<usize, StatusCode>)
        ensures
            r == self.spec_verification_service(old(buf)@.len() as usize),
            final(buf)@.len() == old(buf)@.len(),
    ;

    /// Writes the name of the profile definition document (UTF-8 text) and
    /// returns the number of bytes written.
    fn profile_definition(&self, buf: &mut [u8]) -> (r: Result<usize, StatusCode>)
        ensures
            r == self.spec_profile_definition(old(buf)@.len() as usize),
            final(buf)@.len() == old(buf)@.len(),
    ;

    /// Writes the 32-byte boot seed.
    fn boot_seed(&self, seed: &mut [u8; 32]) -> (r: Result<(), StatusCode>)
        ensures
            match self.spec_boot_seed() {
                Ok(v) => r == Ok::<(), StatusCode>(()) && *final(seed) == v,
                Err(e) => r == Err::<(), StatusCode>(e),
            },
    ;

    /// Writes the implementation id of the device.
    fn implementation_id(&self, buf: &mut [u8; 32]) -> (r: Result<(), StatusCode>)
        ensures
            match self.spec_implementation_id() {
                Ok(v) => r == Ok::<(), StatusCode>(()) && *final(buf) == v,
                Err(e) => r == Err::<(), StatusCode>(e),
            },
    ;

    /// Writes the instance id (UEID): a type byte and a 32-byte id.
    fn instance_id(&self, buf: &mut [u8; 33]) -> (r: Result<(), StatusCode>)
        ensures
            match self.spec_instance_id() {
                Ok(v) => r == Ok::<(), StatusCode>(()) && *final(buf) == v,
                Err(e) => r == Err::<(), StatusCode>(e),
            },
    ;

    /// Writes the certification reference (UTF-8 text, EAN-13 format) and
    /// returns the number of bytes written.
    fn cert_ref(&self, buf: &mut [u8; 19]) -> (r: Result<usize, StatusCode>)
        ensures
            r == self.spec_cert_ref(),
    ;

    /// The raw boot record (TLV) the bootloader shares, if any.
    fn boot_record(&self) -> (r: Option<&'static [u8]>)
        ensures
            r == self.spec_boot_record(),
    ;
}

/// Signs a token: encodes the claims as the payload of a COSE_Sign1
/// message signed with `key_id` into `token`, and returns its length, the
/// number of bytes written at the start of `token`.
pub trait AttestTokenEncoder {
    /// Whether encoding `claims` with `key_id` into a buffer holding
    /// `before` may leave it holding `after` and answer `r`.
    spec fn spec_encodes(claims: &[AttestClaim], key_id: u32, before: &[u8], after: &[u8], r: Result<usize, StatusCode>) -> bool;

    fn encode_initial_attestation_token(claims: &[AttestClaim], token: &mut [u8], key_id: u32) -> (r: Result<
        usize,
        StatusCode,
    >)
        ensures
            final(token)@.len() == old(token)@.len(),
            r matches Ok(n) ==> n <= old(token)@.len(),
            Self::spec_encodes(claims, key_id, &*old(token), &*final(token), r),
    ;
}

/// The buffer after a token request whose encoder left it as `t` and
/// answered `e`: on success everything past the token is zeroed.
pub open spec fn spec_token_buffer(t: Seq<u8>, e: Result<usize, StatusCode>) -> Seq<u8> {
    match e {
        Ok(n) => t.take(n as int) + Seq::new((t.len() - n) as nat, |k: int| 0u8),
        Err(_) => t,
    }
}

/// The answer to a token request on an output vector, given that the
/// encoder left the vector as `t` and answered `e`: on success the token's
/// length and the vector with everything past the token zeroed; on failure
/// the error, nothing written and a zeroed vector.
pub open spec fn spec_token_reply(
    t: Seq<u8>,
    e: Result<usize, StatusCode>,
    r: (Result<(), StatusCode>, usize),
    after: Seq<u8>,
) -> bool {
    match e {
        Ok(n) => r == (Ok::<(), StatusCode>(()), n) && after == spec_token_buffer(t, e),
        Err(err) => r == (Err::<(), StatusCode>(err), 0usize) && after == Seq::new(t.len(), |k: int| 0u8),
    }
}

/// The buffers the platform's claims are written into.
pub struct PlatformBuffers<'a> {
    pub boot_seed: [u8; 32],
    pub profile: [u8; 64],
    pub verification: [u8; 64],
    pub cert_ref: [u8; 19],
    pub impl_id: [u8; 32],
    pub instance_id: [u8; 33],
    pub sw_component: Vec<SwComponent<'a>>,
}

impl<'a> PlatformBuffers<'a> {
    /// Zeroed buffers and no software component.
    pub fn new() -> (r: Self)
        ensures
            r.sw_component@.len() == 0,
            forall|i: int| 0 <= i < 32 ==> r.boot_seed[i] == 0 && r.impl_id[i] == 0,
    {
        PlatformBuffers {
            boot_seed: [0u8; 32],
            profile: [0u8; 64],
            verification: [0u8; 64],
            cert_ref: [0u8; 19],
            impl_id: [0u8; 32],
            instance_id: [0u8; 33],
            sw_component: Vec::new(),
        }
    }
}

/// Whether the first `len` bytes of `buf` can be read as a text claim.
pub open spec fn spec_text_claim_ok(buf: Seq<u8>, len: usize) -> bool {
    len <= buf.len() && valid_utf8(buf.take(len as int))
}

/// The nine standard claims, in the order they are collected: the text ones
/// are the first `prof_len`, `verif_len` and `cert_len` bytes of their
/// buffers, the lifecycle is `sec_lc`.
pub open spec fn spec_platform_claims(
    bufs: PlatformBuffers,
    sec_lc: u32,
    prof_len: usize,
    verif_len: usize,
    cert_len: usize,
    cs: [AttestClaim; 9],
) -> bool {
    &&& cs[0].key == IatClaim::InstanceId
    &&& cs[0].value matches AttestClaimValue::Bytes(b) && b@ == bufs.instance_id@
    &&& cs[1].key == IatClaim::ProfileDefinition
    &&& cs[1].value matches AttestClaimValue::Text(t) && t.spec_bytes() == bufs.profile@.take(prof_len as int)
    &&& cs[2].key == IatClaim::ClientId
    &&& cs[2].value == AttestClaimValue::Signed(1)
    &&& cs[3].key == IatClaim::SecurityLifecycle
    &&& cs[3].value == AttestClaimValue::Unsigned(sec_lc as u64)
    &&& cs[4].key == IatClaim::BootSeed
    &&& cs[4].value matches AttestClaimValue::Bytes(b) && b@ == bufs.boot_seed@
    &&& cs[5].key == IatClaim::SwComponents
    &&& cs[5].value matches AttestClaimValue::SwComponents(c) && c@ == bufs.sw_component@
    &&& cs[6].key == IatClaim::CertificationReference
    &&& cs[6].value matches AttestClaimValue::Text(t) && t.spec_bytes() == bufs.cert_ref@.take(cert_len as int)
    &&& cs[7].key == IatClaim::ImplementationId
    &&& cs[7].value matches AttestClaimValue::Bytes(b) && b@ == bufs.impl_id@
    &&& cs[8].key == IatClaim::VerificationService
    &&& cs[8].value matches AttestClaimValue::Text(t) && t.spec_bytes() == bufs.verification@.take(
        verif_len as int,
    )
}

/// The claims a set of buffers yields carry, under each key, the buffer of
/// that key: the boot seed under `BootSeed`, the implementation id under
/// `ImplementationId`, the instance id under `InstanceId`, each text under
/// its own key (cut to its length), the lifecycle, the client id `1` and
/// the software components; and no key occurs twice.
pub proof fn law_platform_claims_hold_their_buffers(
    bufs: PlatformBuffers,
    sec_lc: u32,
    prof_len: usize,
    verif_len: usize,
    cert_len: usize,
    cs: [AttestClaim; 9],
)
    requires
        spec_platform_claims(bufs, sec_lc, prof_len, verif_len, cert_len, cs),
    ensures
        forall|k: int, l: int| 0 <= k < 9 && 0 <= l < 9 && k != l ==> #[trigger] cs[k].key != #[trigger] cs[l].key,
        forall|k: int|
            0 <= k < 9 ==> {
                &&& (#[trigger] cs[k]).key == IatClaim::BootSeed ==> (cs[k].value matches AttestClaimValue::Bytes(b)
                    && b@ == bufs.boot_seed@)
                &&& cs[k].key == IatClaim::ImplementationId ==> (cs[k].value matches AttestClaimValue::Bytes(b) && b@
                    == bufs.impl_id@)
                &&& cs[k].key == IatClaim::InstanceId ==> (cs[k].value matches AttestClaimValue::Bytes(b) && b@
                    == bufs.instance_id@)
                &&& cs[k].key == IatClaim::ProfileDefinition ==> (cs[k].value matches AttestClaimValue::Text(t)
                    && t.spec_bytes() == bufs.profile@.take(prof_len as int))
                &&& cs[k].key == IatClaim::VerificationService ==> (cs[k].value matches AttestClaimValue::Text(t)
                    && t.spec_bytes() == bufs.verification@.take(verif_len as int))
                &&& cs[k].key == IatClaim::CertificationReference ==> (cs[k].value matches AttestClaimValue::Text(t)
                    && t.spec_bytes() == bufs.cert_ref@.take(cert_len as int))
                &&& cs[k].key == IatClaim::SecurityLifecycle ==> cs[k].value == AttestClaimValue::Unsigned(
                    sec_lc as u64,
                )
                &&& cs[k].key == IatClaim::ClientId ==> cs[k].value == AttestClaimValue::Signed(1)
                &&& cs[k].key == IatClaim::SwComponents ==> (cs[k].value matches AttestClaimValue::SwComponents(c)
                    && c@ == bufs.sw_component@)
                &&& cs[k].key != IatClaim::Nonce
            },
{
}

impl<'a> PlatformBuffers<'a> {
    /// The nine standard claims from the filled buffers, given the
    /// lifecycle and the lengths of the three texts. `InvalidArgument` when a
    /// text is longer than its buffer or not UTF-8.
    pub fn claims(&'a self, sec_lc: u32, prof_len: usize, verif_len: usize, cert_len: usize) -> (r: Result<
        [AttestClaim<'a>; 9],
        StatusCode,
    >)
        ensures
            (spec_text_claim_ok(self.profile@, prof_len) && spec_text_claim_ok(self.verification@, verif_len)
                && spec_text_claim_ok(self.cert_ref@, cert_len)) <==> r is Ok,
            r is Err ==> r == Err::<[AttestClaim; 9], StatusCode>(StatusCode::InvalidArgument),
            r matches Ok(cs) ==> spec_platform_claims(*self, sec_lc, prof_len, verif_len, cert_len, cs),
            r matches Ok(cs) ==> forall|k: int|
                0 <= k < 9 ==> {
                    &&& (#[trigger] cs[k]).key == IatClaim::BootSeed ==> (cs[k].value matches AttestClaimValue::Bytes(b)
                        && b@ == self.boot_seed@)
                    &&& cs[k].key == IatClaim::ImplementationId ==> (cs[k].value matches AttestClaimValue::Bytes(b) && b@
                        == self.impl_id@)
                    &&& cs[k].key == IatClaim::InstanceId ==> (cs[k].value matches AttestClaimValue::Bytes(b) && b@
                        == self.instance_id@)
                },
    {
        let prof_str = match parse_utf8_claim(&self.profile, prof_len) {
            Ok(t) => t,
            Err(e) => {
                return Err(e);
            },
        };
        let verif_str = match parse_utf8_claim(&self.verification, verif_len) {
            Ok(t) => t,
            Err(e) => {
                return Err(e);
            },
        };
        let cert_str = match parse_utf8_claim(&self.cert_ref, cert_len) {
            Ok(t) => t,
            Err(e) => {
                return Err(e);
            },
        };
        let cs = [
                claim(IatClaim::InstanceId, AttestClaimValue::Bytes(&self.instance_id)),
                claim(IatClaim::ProfileDefinition, AttestClaimValue::Text(prof_str)),
                claim(IatClaim::ClientId, AttestClaimValue::Signed(1)),
                claim(IatClaim::SecurityLifecycle, AttestClaimValue::Unsigned(sec_lc as u64)),
                claim(IatClaim::BootSeed, AttestClaimValue::Bytes(&self.boot_seed)),
                claim(IatClaim::SwComponents, AttestClaimValue::SwComponents(self.sw_component.as_slice())),
                claim(IatClaim::CertificationReference, AttestClaimValue::Text(cert_str)),
                claim(IatClaim::ImplementationId, AttestClaimValue::Bytes(&self.impl_id)),
                claim(IatClaim::VerificationService, AttestClaimValue::Text(verif_str)),
            ];
        proof {
            law_platform_claims_hold_their_buffers(*self, sec_lc, prof_len, verif_len, cert_len, cs);
        }
        Ok(cs)
    }

    /// Asks the platform for its claims, in the buffers, and returns the
    /// nine standard claims. Each text is checked right after the platform
    /// writes it; the first platform error, or `InvalidArgument` for the
    /// first bad text, ends the collection. The software component comes
    /// from the boot record, when it parses, and is stored only on success.
    pub fn collect<P: AttestPlatform>(&'a mut self, platform: &'a P) -> (r: Result<[AttestClaim<'a>; 9], StatusCode>)
        ensures
            match spec_collect_result(*platform, *final(self)) {
                Err(e) => r == Err::<[AttestClaim; 9], StatusCode>(e) && final(self).sw_component@
                    == old(self).sw_component@,
                Ok((lc, p, v, c)) => {
                    &&& r matches Ok(cs) && spec_platform_claims(*final(self), lc, p, v, c, cs)
                    &&& platform.spec_boot_seed() == Ok::<[u8; 32], StatusCode>(final(self).boot_seed)
                    &&& platform.spec_implementation_id() == Ok::<[u8; 32], StatusCode>(final(self).impl_id)
                    &&& platform.spec_instance_id() == Ok::<[u8; 33], StatusCode>(final(self).instance_id)
                    &&& spec_boot_components(platform.spec_boot_record(), final(self).sw_component@)
                    &&& r matches Ok(cs) && forall|k: int|
                        0 <= k < 9 ==> {
                            &&& (#[trigger] cs[k]).key == IatClaim::BootSeed ==> (cs[k].value matches AttestClaimValue::Bytes(
                                b,
                            ) && b@ == platform.spec_boot_seed()->Ok_0@)
                            &&& cs[k].key == IatClaim::ImplementationId ==> (cs[k].value matches AttestClaimValue::Bytes(
                                b,
                            ) && b@ == platform.spec_implementation_id()->Ok_0@)
                            &&& cs[k].key == IatClaim::InstanceId ==> (cs[k].value matches AttestClaimValue::Bytes(b)
                                && b@ == platform.spec_instance_id()->Ok_0@)
                            &&& cs[k].key == IatClaim::SecurityLifecycle ==> cs[k].value
                                == AttestClaimValue::Unsigned(platform.spec_security_lifecycle()->Ok_0 as u64)
                        }
                },
            },
    {
        match platform.boot_seed(&mut self.boot_seed) {
            Ok(()) => {},
            Err(e) => {
                return Err(e);
            },
        }
        match platform.implementation_id(&mut self.impl_id) {
            Ok(()) => {},
            Err(e) => {
                return Err(e);
            },
        }
        match platform.instance_id(&mut self.instance_id) {
            Ok(()) => {},
            Err(e) => {
                return Err(e);
            },
        }
        let sec_lc = match platform.security_lifecycle() {
            Ok(v) => v,
            Err(e) => {
                return Err(e);
            },
        };
        let prof_len = match platform.profile_definition(&mut self.profile) {
            Ok(v) => v,
            Err(e) => {
                return Err(e);
            },
        };
        match parse_utf8_claim(&self.profile, prof_len) {
            Ok(_) => {},
            Err(e) => {
                return Err(e);
            },
        }
        let verif_len = match platform.verification_service(&mut self.verification) {
            Ok(v) => v,
            Err(e) => {
                return Err(e);
            },
        };
        match parse_utf8_claim(&self.verification, verif_len) {
            Ok(_) => {},
            Err(e) => {
                return Err(e);
            },
        }
        let cert_len = match platform.cert_ref(&mut self.cert_ref) {
            Ok(v) => v,
            Err(e) => {
                return Err(e);
            },
        };
        match parse_utf8_claim(&self.cert_ref, cert_len) {
            Ok(_) => {},
            Err(e) => {
                return Err(e);
            },
        }
        let mut components: Vec<SwComponent<'a>> = Vec::new();
        match platform.boot_record() {
            Some(record) => match parse_boot_data(record) {
                Some(c) => components.push(c),
                None => {},
            },
            None => {},
        }
        self.sw_component = components;
        let this: &'a Self = self;
        let r = this.claims(sec_lc, prof_len, verif_len, cert_len);
        proof {
            if let Ok(cs) = r {
                law_platform_claims_hold_their_buffers(*this, sec_lc, prof_len, verif_len, cert_len, cs);
            }
        }
        r
    }
}

/// How collecting the claims from `p` ends, given the buffers it leaves:
/// the first platform error, `InvalidArgument` for a text that is longer
/// than its buffer or not UTF-8, or else the lifecycle and the lengths of
/// the profile, verification service and certification reference texts.
pub open spec fn spec_collect_result<P: AttestPlatform>(p: P, bufs: PlatformBuffers) -> Result<
    (u32, usize, usize, usize),
    StatusCode,
> {
    match p.spec_boot_seed() {
        Err(e) => Err(e),
        Ok(_) => match p.spec_implementation_id() {
            Err(e) => Err(e),
            Ok(_) => match p.spec_instance_id() {
                Err(e) => Err(e),
                Ok(_) => match p.spec_security_lifecycle() {
                    Err(e) => Err(e),
                    Ok(lc) => match p.spec_profile_definition(64) {
                        Err(e) => Err(e),
                        Ok(pl) => if !spec_text_claim_ok(bufs.profile@, pl) {
                            Err(StatusCode::InvalidArgument)
                        } else {
                            match p.spec_verification_service(64) {
                                Err(e) => Err(e),
                                Ok(vl) => if !spec_text_claim_ok(bufs.verification@, vl) {
                                    Err(StatusCode::InvalidArgument)
                                } else {
                                    match p.spec_cert_ref() {
                                        Err(e) => Err(e),
                                        Ok(cl) => if !spec_text_claim_ok(bufs.cert_ref@, cl) {
                                            Err(StatusCode::InvalidArgument)
                                        } else {
                                            Ok((lc, pl, vl, cl))
                                        },
                                    }
                                },
                            }
                        },
                    },
                },
            },
        },
    }
}

/// The software components read from a boot record: the one it describes
/// when it parses, none otherwise.
pub open spec fn spec_boot_components(record: Option<&'static [u8]>, sw: Seq<SwComponent>) -> bool {
    match record {
        Some(b) => match spec_parse_boot_data(b@) {
            Some((m, s)) => {
                &&& sw.len() == 1
                &&& sw[0].measurement_type is None
                &&& sw[0].measurement_value@ == b@.subrange(m.0, m.1)
                &&& sw[0].signer_id@ == b@.subrange(s.0, s.1)
            },
            None => sw.len() == 0,
        },
        None => sw.len() == 0,
    }
}

/// The initial attestation service over a platform, signing through `C`.
pub struct AttestService<P: AttestPlatform, C: AttestTokenEncoder> {
    pub platform: P,
    _marker: core::marker::PhantomData<C>,
}

impl<P: AttestPlatform, C: AttestTokenEncoder> AttestService<P, C> {
    /// The platform the service reads its claims from.
    pub closed spec fn platform_view(&self) -> P {
        self.platform
    }

    pub fn new(platform: P) -> (r: Self)
        ensures
            r.platform_view() == platform,
    {
        AttestService { platform, _marker: core::marker::PhantomData }
    }

    /// Whether a token can be asked for with a challenge of this size.
    pub fn challenge_size_is_supported(challenge_size: usize) -> (r: bool)
        ensures
            r == spec_challenge_size_is_supported(challenge_size),
    {
        challenge_size == 32 || challenge_size == 48 || challenge_size == 64
    }

    /// The nonce claim followed by the caller's claims; `InvalidArgument`
    /// if that makes more than `MAX_TOTAL_CLAIMS`.
    pub fn build_claims<'b>(challenge: &'b [u8], additional_claims: &[AttestClaim<'b>]) -> (r: Result<
        Vec<AttestClaim<'b>>,
        StatusCode,
    >)
        ensures
            additional_claims@.len() + 1 > MAX_TOTAL_CLAIMS ==> r == Err::<Vec<AttestClaim>, StatusCode>(
                StatusCode::InvalidArgument,
            ),
            additional_claims@.len() + 1 <= MAX_TOTAL_CLAIMS ==> (r matches Ok(v) && v@ == spec_token_claims(
                challenge,
                additional_claims@,
            )),
    {
        if additional_claims.len() >= MAX_TOTAL_CLAIMS {
            return Err(StatusCode::InvalidArgument);
        }
        let mut claims: Vec<AttestClaim<'b>> = Vec::new();
        claims.push(claim(IatClaim::Nonce, AttestClaimValue::Bytes(challenge)));
        let mut i: usize = 0;
        while i < additional_claims.len()
            invariant
                0 <= i <= additional_claims@.len(),
                claims@ == spec_token_claims(challenge, additional_claims@.take(i as int)),
            decreases additional_claims@.len() - i,
        {
            claims.push(additional_claims[i]);
            proof {
                assert(additional_claims@.take(i + 1) =~= additional_claims@.take(i as int).push(
                    additional_claims@[i as int],
                ));
            }
            i = i + 1;
        }
        proof {
            assert(additional_claims@.take(additional_claims@.len() as int) =~= additional_claims@);
        }
        Ok(claims)
    }

    /// The exact size of the token for a challenge of `challenge_size`
    /// bytes and the caller's claims: `InvalidArgument` for an unsupported
    /// size or too many claims.
    pub fn initial_attest_get_token_size(&self, challenge_size: usize, additional_claims: &[AttestClaim]) -> (r: Result<
        usize,
        StatusCode,
    >)
        ensures
            r == spec_token_size_result(challenge_size, additional_claims@),
    {
        if !Self::challenge_size_is_supported(challenge_size) {
            return Err(StatusCode::InvalidArgument);
        }
        let dummy_nonce = [0u8; 64];
        let nonce = &dummy_nonce[0..challenge_size];
        let claims = match Self::build_claims(nonce, additional_claims) {
            Ok(c) => c,
            Err(e) => {
                return Err(e);
            },
        };
        proof {
            lemma_token_claims_payload(nonce, additional_claims@);
            assert(nonce@ =~= Seq::new(challenge_size as nat, |i: int| 0u8));
        }
        compute_initial_attestation_token_size(claims.as_slice(), TEMP_KEY_ID)
    }

    /// Builds and signs the token for a challenge and the caller's claims
    /// into `token`, zeroing what follows it. An unsupported challenge size
    /// or too many claims give `InvalidArgument` with `token` untouched;
    /// otherwise the encoder decides.
    pub fn initial_attest_get_token(&self, challenge: &[u8], additional_claims: &[AttestClaim], token: &mut [u8]) -> (r:
        Result<usize, StatusCode>)
        ensures
            !spec_challenge_size_is_supported(challenge@.len() as usize) ==> r == Err::<usize, StatusCode>(
                StatusCode::InvalidArgument,
            ) && final(token)@ == old(token)@,
            additional_claims@.len() + 1 > MAX_TOTAL_CLAIMS ==> r == Err::<usize, StatusCode>(
                StatusCode::InvalidArgument,
            ) && final(token)@ == old(token)@,
            r matches Ok(n) ==> n <= old(token)@.len() && final(token)@.len() == old(token)@.len(),
            r matches Ok(n) ==> forall|k: int| n <= k < final(token)@.len() ==> final(token)@[k] == 0,
            spec_challenge_size_is_supported(challenge@.len() as usize) && additional_claims@.len() + 1
                <= MAX_TOTAL_CLAIMS ==> (exists|cl: &[AttestClaim], t: &[u8]|
                cl@ == spec_token_claims(challenge, additional_claims@) && t@.len() == old(token)@.len()
                    && #[trigger] C::spec_encodes(cl, TEMP_KEY_ID, &*old(token), t, r) && final(token)@
                    == spec_token_buffer(t@, r)),
    {
        if !Self::challenge_size_is_supported(challenge.len()) {
            return Err(StatusCode::InvalidArgument);
        }
        let claims = match Self::build_claims(challenge, additional_claims) {
            Ok(c) => c,
            Err(e) => {
                return Err(e);
            },
        };
        let cl = claims.as_slice();
        let encoded = C::encode_initial_attestation_token(cl, token, TEMP_KEY_ID);
        let ghost t: &[u8] = &*token;
        let encoded_len = match encoded {
            Ok(n) => n,
            Err(e) => {
                proof {
                    assert(C::spec_encodes(cl, TEMP_KEY_ID, &*old(token), t, encoded));
                }
                return Err(e);
            },
        };
        zero_tail(token, encoded_len);
        proof {
            assert(C::spec_encodes(cl, TEMP_KEY_ID, &*old(token), t, encoded));
            assert(token@ =~= spec_token_buffer(t@, encoded));
        }
        Ok(encoded_len)
    }

    /// Answers a token request on its output vector: the token and its
    /// length, or, on failure, a zeroed vector and nothing written.
    pub fn get_token_reply(&self, challenge: &[u8], claims: &[AttestClaim], outvec: &mut [u8]) -> (r: (
        Result<(), StatusCode>,
        usize,
    ))
        ensures
            r.0 is Err ==> r.1 == 0 && forall|k: int| 0 <= k < final(outvec)@.len() ==> final(outvec)@[k] == 0,
            r.0 is Ok ==> r.1 <= old(outvec)@.len(),
            r.0 is Ok ==> forall|k: int| r.1 <= k < final(outvec)@.len() ==> final(outvec)@[k] == 0,
            !spec_challenge_size_is_supported(challenge@.len() as usize) ==> r.0 == Err::<(), StatusCode>(
                StatusCode::InvalidArgument,
            ),
            claims@.len() + 1 > MAX_TOTAL_CLAIMS ==> r.0 == Err::<(), StatusCode>(StatusCode::InvalidArgument),
            spec_challenge_size_is_supported(challenge@.len() as usize) && claims@.len() + 1 <= MAX_TOTAL_CLAIMS
                ==> (exists|cl: &[AttestClaim], t: &[u8], e: Result<usize, StatusCode>|
                cl@ == spec_token_claims(challenge, claims@) && t@.len() == old(outvec)@.len()
                    && #[trigger] C::spec_encodes(cl, TEMP_KEY_ID, &*old(outvec), t, e) && spec_token_reply(
                    t@,
                    e,
                    r,
                    final(outvec)@,
                )),
    {
        let ghost before: &[u8] = &*outvec;
        let result = self.initial_attest_get_token(challenge, claims, outvec);
        let ghost mid = outvec@;
        match result {
            Ok(written_len) => {
                let ret: (Result<(), StatusCode>, usize) = (Ok(()), written_len);
                proof {
                    if spec_challenge_size_is_supported(challenge@.len() as usize) && claims@.len() + 1
                        <= MAX_TOTAL_CLAIMS {
                        let (cl, t) = choose|cl: &[AttestClaim], t: &[u8]|
                            cl@ == spec_token_claims(challenge, claims@) && t@.len() == before@.len()
                                && #[trigger] C::spec_encodes(cl, TEMP_KEY_ID, before, t, result) && mid
                                == spec_token_buffer(t@, result);
                        assert(C::spec_encodes(cl, TEMP_KEY_ID, before, t, result));
                        assert(spec_token_reply(t@, result, ret, outvec@));
                    }
                }
                ret
            },
            Err(e) => {
                let mut k: usize = 0;
                while k < outvec.len()
                    invariant
                        0 <= k <= outvec@.len(),
                        outvec@.len() == mid.len(),
                        forall|j: int| 0 <= j < k ==> outvec@[j] == 0,
                    decreases outvec@.len() - k,
                {
                    outvec[k] = 0;
                    k = k + 1;
                }
                proof {
                    assert(outvec@ =~= Seq::new(outvec@.len(), |k: int| 0u8));
                    if spec_challenge_size_is_supported(challenge@.len() as usize) && claims@.len() + 1
                        <= MAX_TOTAL_CLAIMS {
                        let (cl, t) = choose|cl: &[AttestClaim], t: &[u8]|
                            cl@ == spec_token_claims(challenge, claims@) && t@.len() == before@.len()
                                && #[trigger] C::spec_encodes(cl, TEMP_KEY_ID, before, t, result) && mid
                                == spec_token_buffer(t@, result);
                        assert(C::spec_encodes(cl, TEMP_KEY_ID, before, t, result));
                        assert(spec_token_reply(t@, result, (Err::<(), StatusCode>(e), 0usize), outvec@));
                    }
                }
                (Err(e), 0)
            },
        }
    }

    /// The token size for a challenge of `challenge_size` bytes with the
    /// boot seed and the software component of the boot record (if it
    /// parses) as the caller's claims.
    pub fn token_size_with_boot_data(&self, challenge_size: usize, boot_seed: &[u8; 32], boot_record: Option<&[u8]>) -> (r:
        Result<usize, StatusCode>)
        ensures
            r == spec_boot_token_size_result(
                challenge_size,
                boot_seed@,
                match boot_record {
                    Some(b) => Some(b@),
                    None => None,
                },
            ),
    {
        let mut components: Vec<SwComponent> = Vec::new();
        match boot_record {
            Some(record) => match parse_boot_data(record) {
                Some(c) => components.push(c),
                None => {},
            },
            None => {},
        }
        let seed = boot_seed.as_slice();
        let additional_claims = [
            claim(IatClaim::BootSeed, AttestClaimValue::Bytes(seed)),
            claim(IatClaim::SwComponents, AttestClaimValue::SwComponents(components.as_slice())),
        ];
        proof {
            let ghost rec = match boot_record {
                Some(b) => Some(b@),
                None => None,
            };
            let cs = additional_claims@;
            assert(cs.drop_last().drop_last() =~= Seq::<AttestClaim>::empty());
            assert(spec_claim_items(cs.drop_last().drop_last()) =~= Seq::<u8>::empty());
            assert(cs.drop_last().last() == cs[0]);
            assert(cs.last() == cs[1]);
            assert(spec_claim_items(cs.drop_last()) =~= crate::attest::psa_token::spec_claim(cs[0]));
            assert(spec_claim_items(cs) =~= crate::attest::psa_token::spec_claim(cs[0])
                + crate::attest::psa_token::spec_claim(cs[1]));
            let comps = components@;
            if comps.len() == 1 {
                assert(comps.drop_last() =~= Seq::<SwComponent>::empty());
                assert(spec_sw_component_items(comps.drop_last()) =~= Seq::<u8>::empty());
                assert(comps.last() == comps[0]);
                assert(spec_sw_component_items(comps) =~= spec_sw_component(comps[0]));
            } else {
                assert(comps =~= Seq::<SwComponent>::empty());
            }
            assert(spec_claim_items(cs) =~= spec_boot_claim_items(boot_seed@, rec));
        }
        self.initial_attest_get_token_size(challenge_size, &additional_claims)
    }

    /// The token size for a challenge of `challenge_size` bytes with the
    /// platform's boot seed and boot record: fails when the platform cannot
    /// give the boot seed, otherwise answers as `token_size_with_boot_data`.
    pub fn token_size_for_boot_state(&self, challenge_size: usize) -> (r: Result<usize, StatusCode>)
        ensures
            r == match self.platform_view().spec_boot_seed() {
                Err(e) => Err(e),
                Ok(seed) => spec_boot_token_size_result(
                    challenge_size,
                    seed@,
                    match self.platform_view().spec_boot_record() {
                        Some(b) => Some(b@),
                        None => None,
                    },
                ),
            },
    {
        let mut boot_seed = [0u8; 32];
        match self.platform.boot_seed(&mut boot_seed) {
            Ok(()) => {},
            Err(e) => {
                return Err(e);
            },
        }
        let record = self.platform.boot_record();
        let boot_record: Option<&[u8]> = match record {
            Some(r) => Some(r),
            None => None,
        };
        self.token_size_with_boot_data(challenge_size, &boot_seed, boot_record)
    }

    /// Whether a request carries exactly one input and one output vector.
    pub fn has_exactly_one_iovec(msg: &PsaMsg) -> (r: bool)
        ensures
            r == spec_has_exactly_one_iovec(*msg),
    {
        if msg.in_size[0].is_none() || msg.out_size[0].is_none() {
            return false;
        }
        let mut i: usize = 1;
        while i < 4
            invariant
                1 <= i <= 4,
                forall|j: int| 1 <= j < i ==> (#[trigger] msg.in_size[j]).spec_option() is None,
                forall|j: int| 1 <= j < i ==> (#[trigger] msg.out_size[j]).spec_option() is None,
            decreases 4 - i,
        {
            if msg.in_size[i].is_some() || msg.out_size[i].is_some() {
                return false;
            }
            i = i + 1;
        }
        true
    }

    /// The request a message makes, or the error it is answered with.
    pub fn request_for(msg: &PsaMsg) -> (r: Result<AttestRequest, StatusCode>)
        ensures
            r == spec_request_for(*msg),
    {
        if !Self::has_exactly_one_iovec(msg) {
            Err(StatusCode::InvalidArgument)
        } else if msg.msg_type == PSA_ATTEST_GET_TOKEN {
            Ok(AttestRequest::GetToken)
        } else if msg.msg_type == PSA_ATTEST_GET_TOKEN_SIZE {
            Ok(AttestRequest::GetTokenSize)
        } else {
            Err(StatusCode::NotSupported)
        }
    }
}

/// Zeroes `buf` from `start` on; nothing when `start` is past its end.
pub fn zero_tail(buf: &mut [u8], start: usize)
    ensures
        final(buf)@.len() == old(buf)@.len(),
        forall|k: int| 0 <= k < start && k < old(buf)@.len() ==> final(buf)@[k] == old(buf)@[k],
        forall|k: int| start <= k < old(buf)@.len() ==> final(buf)@[k] == 0,
{
    let mut k: usize = start;
    while k < buf.len()
        invariant
            start <= k,
            buf@.len() == old(buf)@.len(),
            forall|j: int| 0 <= j < start && j < buf@.len() ==> buf@[j] == old(buf)@[j],
            forall|j: int| start <= j < k && j < buf@.len() ==> buf@[j] == 0,
        decreases buf@.len() - k,
    {
        buf[k] = 0;
        k = k + 1;
    }
}

/// Answers a token size request on its output vector: the size's bytes
/// when they fit (`BufferTooSmall` and a zeroed vector when they do not),
/// and the number of bytes written.
pub fn size_reply(size_bytes: &[u8], outvec: &mut [u8]) -> (r: (Result<(), StatusCode>, usize))
    ensures
        old(outvec)@.len() < size_bytes@.len() ==> r == (Err::<(), StatusCode>(StatusCode::BufferTooSmall), 0usize)
            && final(outvec)@ == Seq::new(old(outvec)@.len(), |k: int| 0u8),
        old(outvec)@.len() >= size_bytes@.len() ==> r == (Ok::<(), StatusCode>(()), size_bytes@.len() as usize)
            && final(outvec)@ == size_bytes@ + old(outvec)@.skip(size_bytes@.len() as int),
{
    if outvec.len() < size_bytes.len() {
        let mut k: usize = 0;
        while k < outvec.len()
            invariant
                0 <= k <= outvec@.len(),
                outvec@.len() == old(outvec)@.len(),
                forall|j: int| 0 <= j < k ==> outvec@[j] == 0,
            decreases outvec@.len() - k,
        {
            outvec[k] = 0;
            k = k + 1;
        }
        proof {
            assert(outvec@ =~= Seq::new(old(outvec)@.len(), |k: int| 0u8));
        }
        (Err(StatusCode::BufferTooSmall), 0)
    } else {
        crate::crypto::write_prefix(outvec, size_bytes);
        (Ok(()), size_bytes.len())
    }
}

} // verus!
