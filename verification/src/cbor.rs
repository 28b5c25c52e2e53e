//! CBOR data items (RFC 8949) as the attestation token uses them, and the
//! encoder calls that produce them.
use vstd::prelude::*;

use minicbor::Encoder;
use vstd::string::StringSliceAdditionalSpecFns;

verus! {

/// The `n` low-order bytes of `x`, most significant first.
pub open spec fn spec_be_bytes(x: nat, n: nat) -> Seq<u8>
    decreases n,
{
    if n == 0 {
        Seq::empty()
    } else {
        spec_be_bytes(x / 256, (n - 1) as nat).push((x % 256) as u8)
    }
}

/// The head of a data item of major type `major` with argument `arg`: the
/// initial byte, followed by the argument in 1, 2, 4 or 8 big-endian bytes
/// when it does not fit in the initial byte.
pub open spec fn spec_cbor_head(major: u8, arg: u64) -> Seq<u8>
    recommends
        major < 8,
{
    let m = major as int * 32;
    if arg <= 23 {
        seq![(m + arg) as u8]
    } else if arg <= 0xff {
        seq![(m + 24) as u8, arg as u8]
    } else if arg <= 0xffff {
        seq![(m + 25) as u8] + spec_be_bytes(arg as nat, 2)
    } else if arg <= 0xffff_ffff {
        seq![(m + 26) as u8] + spec_be_bytes(arg as nat, 4)
    } else {
        seq![(m + 27) as u8] + spec_be_bytes(arg as nat, 8)
    }
}

/// The length of a head with argument `arg`.
pub open spec fn spec_cbor_head_len(arg: u64) -> nat {
    if arg <= 23 {
        1
    } else if arg <= 0xff {
        2
    } else if arg <= 0xffff {
        3
    } else if arg <= 0xffff_ffff {
        5
    } else {
        9
    }
}

proof fn lemma_be_bytes_len(x: nat, n: nat)
    ensures
        spec_be_bytes(x, n).len() == n,
    decreases n,
{
    if n > 0 {
        lemma_be_bytes_len(x / 256, (n - 1) as nat);
    }
}

/// A head's length depends on its argument alone.
pub proof fn lemma_cbor_head_len(major: u8, arg: u64)
    ensures
        spec_cbor_head(major, arg).len() == spec_cbor_head_len(arg),
{
    lemma_be_bytes_len(arg as nat, 2);
    lemma_be_bytes_len(arg as nat, 4);
    lemma_be_bytes_len(arg as nat, 8);
}

/// An integer: major type 0 for `x >= 0`, major type 1 with argument
/// `-1 - x` otherwise.
pub open spec fn spec_cbor_int(x: int) -> Seq<u8> {
    if x >= 0 {
        spec_cbor_head(0, x as u64)
    } else {
        spec_cbor_head(1, (-1 - x) as u64)
    }
}

/// A byte string.
pub open spec fn spec_cbor_bytes(b: Seq<u8>) -> Seq<u8> {
    spec_cbor_head(2, b.len() as u64) + b
}

/// A text string given by its UTF-8 bytes.
pub open spec fn spec_cbor_text(utf8: Seq<u8>) -> Seq<u8> {
    spec_cbor_head(3, utf8.len() as u64) + utf8
}

/// The head of an array of `n` items.
pub open spec fn spec_cbor_array(n: u64) -> Seq<u8> {
    spec_cbor_head(4, n)
}

/// The head of a map of `n` entries.
pub open spec fn spec_cbor_map(n: u64) -> Seq<u8> {
    spec_cbor_head(5, n)
}

/// Encodes an unsigned integer with `minicbor::Encoder::u64`, which writes
/// the major-type-0 head of `x` in the shortest form.
#[verifier::external_body]
pub(crate) fn cbor_u64(x: u64) -> (r: Vec<u8>)
    ensures
        r@ == spec_cbor_head(0, x),
{
    let mut e = Encoder::new(Vec::new());
    let _ = e.u64(x);
    e.into_writer()
}

/// Encodes a signed integer with `minicbor::Encoder::i64`: major type 0 for
/// non-negative values, major type 1 with argument `-1 - x` otherwise.
#[verifier::external_body]
pub(crate) fn cbor_i64(x: i64) -> (r: Vec<u8>)
    ensures
        r@ == spec_cbor_int(x as int),
{
    let mut e = Encoder::new(Vec::new());
    let _ = e.i64(x);
    e.into_writer()
}

/// Encodes a 32-bit signed integer with `minicbor::Encoder::i32`, which
/// writes the same items as for the equal 64-bit value.
#[verifier::external_body]
pub(crate) fn cbor_i32(x: i32) -> (r: Vec<u8>)
    ensures
        r@ == spec_cbor_int(x as int),
{
    let mut e = Encoder::new(Vec::new());
    let _ = e.i32(x);
    e.into_writer()
}

/// Encodes a small unsigned integer with `minicbor::Encoder::u8`.
#[verifier::external_body]
pub(crate) fn cbor_u8(x: u8) -> (r: Vec<u8>)
    ensures
        r@ == spec_cbor_head(0, x as u64),
{
    let mut e = Encoder::new(Vec::new());
    let _ = e.u8(x);
    e.into_writer()
}

/// Encodes a byte string with `minicbor::Encoder::bytes`: the major-type-2
/// head of its length, then the bytes.
#[verifier::external_body]
pub(crate) fn cbor_bytes(x: &[u8]) -> (r: Vec<u8>)
    ensures
        r@ == spec_cbor_bytes(x@),
{
    let mut e = Encoder::new(Vec::new());
    let _ = e.bytes(x);
    e.into_writer()
}

/// Encodes a text string with `minicbor::Encoder::str`: the major-type-3
/// head of its UTF-8 length, then its UTF-8 bytes.
#[verifier::external_body]
pub(crate) fn cbor_str(x: &str) -> (r: Vec<u8>)
    ensures
        r@ == spec_cbor_text(x.spec_bytes()),
{
    let mut e = Encoder::new(Vec::new());
    let _ = e.str(x);
    e.into_writer()
}

/// Encodes an array head with `minicbor::Encoder::array`.
#[verifier::external_body]
pub(crate) fn cbor_array(len: u64) -> (r: Vec<u8>)
    ensures
        r@ == spec_cbor_array(len),
{
    let mut e = Encoder::new(Vec::new());
    let _ = e.array(len);
    e.into_writer()
}

/// Encodes a map head with `minicbor::Encoder::map`.
#[verifier::external_body]
pub(crate) fn cbor_map(len: u64) -> (r: Vec<u8>)
    ensures
        r@ == spec_cbor_map(len),
{
    let mut e = Encoder::new(Vec::new());
    let _ = e.map(len);
    e.into_writer()
}

} // verus!
