//! Types shared between the partition manager and the services, and the
//! IO-vector and supervisor-call machinery.
use vstd::prelude::*;

use crate::spm::connection_stack::PSA_MAX_IOVEC;
use crate::types::ServiceHandle;

pub mod connection;
pub mod svc;

verus! {

/// Who issued a PSA call.
#[derive(Clone, Copy, Debug, PartialEq, Eq, Structural)]
pub struct CallerAttributes {
    /// Caller is from the Non-Secure world.
    pub ns: bool,
    /// Caller is privileged (handler mode or nPRIV=0).
    pub privileged: bool,
}

impl CallerAttributes {
    /// A privileged non-secure caller.
    pub fn ns_privileged() -> (r: CallerAttributes)
        ensures
            r.ns && r.privileged,
    {
        CallerAttributes { ns: true, privileged: true }
    }

    /// An unprivileged non-secure caller.
    pub fn ns_unprivileged() -> (r: CallerAttributes)
        ensures
            r.ns && !r.privileged,
    {
        CallerAttributes { ns: true, privileged: false }
    }

    /// A privileged secure caller.
    pub fn secure_privileged() -> (r: CallerAttributes)
        ensures
            !r.ns && r.privileged,
    {
        CallerAttributes { ns: false, privileged: true }
    }

    /// An unprivileged secure caller (a sandboxed service).
    pub fn secure_unprivileged() -> (r: CallerAttributes)
        ensures
            !r.ns && !r.privileged,
    {
        CallerAttributes { ns: false, privileged: false }
    }
}

/// The value that stands for "absent" in a [`MaybeUsize`].
pub const NONE_SENTINEL: usize = usize::MAX;

/// An optional size stored in one machine word: `usize::MAX` stands for
/// "absent", any other value for itself.
#[derive(Clone, Copy, Debug, PartialEq, Eq, Structural)]
pub struct MaybeUsize(pub usize);

impl MaybeUsize {
    /// The optional value this word stands for.
    pub open spec fn spec_option(self) -> Option<usize> {
        if self.0 == NONE_SENTINEL {
            None
        } else {
            Some(self.0)
        }
    }

    pub fn none() -> (r: MaybeUsize)
        ensures
            r.0 == NONE_SENTINEL,
            r.spec_option() is None,
    {
        MaybeUsize(NONE_SENTINEL)
    }

    /// Stores `v`; note that `some(usize::MAX)` reads back as absent.
    pub fn some(v: usize) -> (r: MaybeUsize)
        ensures
            r.0 == v,
            r.spec_option() == (if v == NONE_SENTINEL { None } else { Some(v) }),
    {
        MaybeUsize(v)
    }

    pub fn is_some(&self) -> (r: bool)
        ensures
            r == (self.0 != NONE_SENTINEL),
            r == self.spec_option() is Some,
    {
        self.0 != NONE_SENTINEL
    }

    pub fn is_none(&self) -> (r: bool)
        ensures
            r == (self.0 == NONE_SENTINEL),
            r == self.spec_option() is None,
    {
        self.0 == NONE_SENTINEL
    }

    pub fn as_option(&self) -> (r: Option<usize>)
        ensures
            r == self.spec_option(),
    {
        if self.is_some() {
            Some(self.0)
        } else {
            None
        }
    }

    pub fn unwrap_or(&self, default: usize) -> (r: usize)
        ensures
            r == (if self.0 != NONE_SENTINEL { self.0 } else { default }),
    {
        if self.is_some() {
            self.0
        } else {
            default
        }
    }

    /// The stored value; only defined when a value is present.
    pub fn unwrap(&self) -> (r: usize)
        requires
            self.0 != NONE_SENTINEL,
        ensures
            r == self.0,
            self.spec_option() == Some(r),
    {
        self.0
    }

    /// Stores an optional value.
    pub fn from_option(opt: Option<usize>) -> (r: MaybeUsize)
        ensures
            r.0 == (match opt {
                Some(v) => v,
                None => NONE_SENTINEL,
            }),
    {
        match opt {
            Some(v) => MaybeUsize::some(v),
            None => MaybeUsize::none(),
        }
    }
}

/// Storing a value other than `usize::MAX` and reading it back gives it back.
pub proof fn law_maybe_usize_roundtrip(opt: Option<usize>)
    requires
        opt != Some(NONE_SENTINEL),
    ensures
        (MaybeUsize(match opt {
            Some(v) => v,
            None => NONE_SENTINEL,
        })).spec_option() == opt,
{
}

/// The partition-manager interface for services that run as ordinary
/// calls.
pub struct SfnApi;

/// The partition-manager interface for sandboxed services, which reach the
/// manager through supervisor calls.
pub struct SvcApi;

/// The PSA client that services running inside the manager call through.
pub struct InternalPsaClient;

/// The PSA client of sandboxed services.
pub struct IpcPsaClient;

/// A request message as a service sees it.
#[derive(Clone, Copy, Debug)]
pub struct PsaMsg {
    pub handle: ServiceHandle,
    pub msg_type: i32,
    pub caller: CallerAttributes,
    pub in_size: [MaybeUsize; PSA_MAX_IOVEC],
    pub out_size: [MaybeUsize; PSA_MAX_IOVEC],
}

impl PsaMsg {
    /// A message without any vectors.
    pub fn new(handle: ServiceHandle, msg_type: i32, caller: CallerAttributes) -> (r: PsaMsg)
        ensures
            r.handle == handle,
            r.msg_type == msg_type,
            r.caller == caller,
            forall|i: int| 0 <= i < PSA_MAX_IOVEC ==> (#[trigger] r.in_size@[i]).0 == NONE_SENTINEL,
            forall|i: int| 0 <= i < PSA_MAX_IOVEC ==> (#[trigger] r.out_size@[i]).0 == NONE_SENTINEL,
    {
        let n = MaybeUsize::none();
        PsaMsg { handle, msg_type, caller, in_size: [n, n, n, n], out_size: [n, n, n, n] }
    }
}

/// A mapped vector handed to an unprivileged service: address and length.
#[derive(Clone, Copy, Debug, PartialEq, Eq, Structural)]
pub struct RawVec {
    pub base: usize,
    pub len: usize,
}

} // verus!
