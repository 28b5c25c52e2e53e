use vstd::prelude::*;

verus! {

/// Version of the PSA Firmware Framework API implemented here (1.1).
pub const PSA_FRAMEWORK_VERSION: u32 = 0x0101;

/// The services that a caller can address.
#[derive(Clone, Copy, Debug, PartialEq, Eq, Structural)]
pub enum ServiceHandle {
    Crypto,
    InternalTrustedStorageService,
    AttestationService,
}

/// The raw handle value of each service.
pub open spec fn spec_handle_value(h: ServiceHandle) -> u32 {
    match h {
        ServiceHandle::Crypto => 0x4000_0100,
        ServiceHandle::InternalTrustedStorageService => 0x4000_0102,
        ServiceHandle::AttestationService => 0x4000_0103,
    }
}

impl ServiceHandle {
    /// The raw handle value of this service.
    pub fn value(self) -> (r: u32)
        ensures
            r == spec_handle_value(self),
    {
        match self {
            ServiceHandle::Crypto => 0x4000_0100,
            ServiceHandle::InternalTrustedStorageService => 0x4000_0102,
            ServiceHandle::AttestationService => 0x4000_0103,
        }
    }
}

/// Packed control parameter of a PSA call: the request type in bits 16..32
/// (read as a signed 16-bit value), the number of input vectors in bits
/// 8..11, the non-secure input flag in bit 11, the number of output vectors
/// in bits 0..3 and the non-secure output flag in bit 3.
#[derive(Clone, Copy, Debug, PartialEq, Eq, Structural)]
pub struct CtrlParam {
    pub raw: u32,
}

/// The request type packed in `raw`.
pub open spec fn spec_unpack_type(raw: u32) -> int {
    let t = raw as int / 65536;
    if t >= 32768 {
        t - 65536
    } else {
        t
    }
}

/// The number of input vectors packed in `raw`.
pub open spec fn spec_in_len(raw: u32) -> int {
    (raw as int / 256) % 8
}

/// The number of output vectors packed in `raw`.
pub open spec fn spec_out_len(raw: u32) -> int {
    raw as int % 8
}

/// The word packing the given fields.
pub open spec fn spec_pack(ty: u16, in_len: usize, in_ns: bool, out_len: usize, out_ns: bool) -> int {
    ty as int * 65536 + (if in_ns { 2048int } else { 0 }) + (in_len as int % 8) * 256
        + (if out_ns { 8int } else { 0 }) + out_len as int % 8
}

impl CtrlParam {
    /// Packs a request type and the vector counts (each taken modulo 8).
    pub fn new(ty: u16, in_len: usize, in_ns: bool, out_len: usize, out_ns: bool) -> (r: CtrlParam)
        ensures
            r.raw as int == spec_pack(ty, in_len, in_ns, out_len, out_ns),
            spec_unpack_type(r.raw) == (if ty >= 32768 { ty as int - 65536 } else { ty as int }),
            spec_in_len(r.raw) == in_len as int % 8,
            spec_out_len(r.raw) == out_len as int % 8,
    {
        let a: u32 = if in_ns { 2048 } else { 0 };
        let b: u32 = if out_ns { 8 } else { 0 };
        let low: u32 = a + ((in_len % 8) as u32) * 256 + b + (out_len % 8) as u32;
        assert(low < 65536);
        let raw: u32 = (ty as u32) * 65536 + low;
        proof {
            let t = ty as int;
            let l = low as int;
            assert((t * 65536 + l) / 65536 == t) by (nonlinear_arith)
                requires 0 <= l < 65536, t >= 0;
            assert(((t * 65536 + l) / 256) % 8 == (l / 256) % 8) by (nonlinear_arith)
                requires 0 <= l < 65536, t >= 0;
            assert((t * 65536 + l) % 8 == l % 8) by (nonlinear_arith)
                requires 0 <= l < 65536, t >= 0;
        }
        CtrlParam { raw }
    }

    /// The request type: bits 16..32 read as a signed 16-bit value.
    pub fn unpack_type(&self) -> (r: i32)
        ensures
            r as int == spec_unpack_type(self.raw),
    {
        let t: u32 = self.raw / 65536;
        if t >= 32768 {
            (t as i32) - 65536
        } else {
            t as i32
        }
    }

    /// The number of input vectors.
    pub fn in_len(&self) -> (r: usize)
        ensures
            r as int == spec_in_len(self.raw),
            r <= 7,
    {
        ((self.raw / 256) % 8) as usize
    }

    /// The number of output vectors.
    pub fn out_len(&self) -> (r: usize)
        ensures
            r as int == spec_out_len(self.raw),
            r <= 7,
    {
        (self.raw % 8) as usize
    }

    /// Whether the call carries any input or output vectors.
    pub fn has_iovec(&self) -> (r: bool)
        ensures
            r == (spec_in_len(self.raw) != 0 || spec_out_len(self.raw) != 0),
    {
        self.in_len() != 0 || self.out_len() != 0
    }
}

/// An input vector as the caller describes it: the address of its first
/// byte and its length.
#[derive(Clone, Copy, Debug, PartialEq, Eq, Structural)]
pub struct FFInVec {
    pub base: usize,
    pub len: usize,
}

/// An output vector as the caller describes it: the address of its first
/// byte and its length.
#[derive(Clone, Copy, Debug, PartialEq, Eq, Structural)]
pub struct FFOutVec {
    pub base: usize,
    pub len: usize,
}

} // verus!
