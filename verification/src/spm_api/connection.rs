//! Validation of a call's parameters and vectors, construction of the
//! connection record, and the map / unmap / commit protocol of its vectors.
use vstd::prelude::*;

use crate::spm::connection_stack::{
    spec_can_restore, spec_restore, spec_take, spec_take_result, Connection, ConnectionArray,
    ConnectionView, StackModel, PSA_MAX_IOVEC,
};
use crate::spm_api::{CallerAttributes, MaybeUsize, PsaMsg, RawVec, NONE_SENTINEL};
use crate::status::StatusCode;
use crate::types::{spec_in_len, spec_out_len, spec_unpack_type, CtrlParam, FFInVec, FFOutVec, ServiceHandle};

verus! {

/// The memory-protection policy the partition manager consults before it
/// lets a service touch a caller's buffer.
pub trait MemoryPermission {
    /// Whether `caller` may read (or, with `is_write`, write) `len` bytes at `base`.
    spec fn spec_permits(&self, base: usize, len: usize, is_write: bool, caller: CallerAttributes) -> bool;

    /// Asks the policy; the answer is what [`MemoryPermission::spec_permits`] says.
    fn has_real_permission(&self, base: usize, len: usize, is_write: bool, caller: CallerAttributes) -> (r: bool)
        ensures
            r == self.spec_permits(base, len, is_write, caller),
    ;
}

/// What `validate_call_params` returns for a control parameter.
pub open spec fn spec_validate_call_params(raw: u32) -> Result<(i32, usize, usize), StatusCode> {
    let ty = spec_unpack_type(raw);
    let i = spec_in_len(raw);
    let o = spec_out_len(raw);
    if ty < 0 {
        Err(StatusCode::ProgrammerError)
    } else if i == 0 && o == 0 {
        Ok((ty as i32, 0usize, 0usize))
    } else if i + o <= PSA_MAX_IOVEC {
        Ok((ty as i32, i as usize, o as usize))
    } else {
        Err(StatusCode::ProgrammerError)
    }
}

/// Checks a call's control parameter: the request type must not be negative
/// and at most `PSA_MAX_IOVEC` vectors may be passed in all. Returns the
/// request type and the numbers of input and output vectors.
pub fn validate_call_params(ctrl_param: CtrlParam) -> (r: Result<(i32, usize, usize), StatusCode>)
    ensures
        r == spec_validate_call_params(ctrl_param.raw),
{
    let msg_type = ctrl_param.unpack_type();
    if msg_type < 0 {
        return Err(StatusCode::ProgrammerError);
    }
    if !ctrl_param.has_iovec() {
        return Ok((msg_type, 0, 0));
    }
    let ivec_num = ctrl_param.in_len();
    let ovec_num = ctrl_param.out_len();
    match ivec_num.checked_add(ovec_num) {
        Some(total) => {
            if total <= PSA_MAX_IOVEC {
                Ok((msg_type, ivec_num, ovec_num))
            } else {
                Err(StatusCode::ProgrammerError)
            }
        },
        None => Err(StatusCode::ProgrammerError),
    }
}

/// Checks that vector arrays that are announced are not at address zero.
pub fn validate_vec_pointer_shape(
    has_iovec: bool,
    ivec_num: usize,
    ovec_num: usize,
    in_vec: usize,
    out_vec: usize,
) -> (r: Result<(), StatusCode>)
    ensures
        r == (if has_iovec && ((ivec_num > 0 && in_vec == 0) || (ovec_num > 0 && out_vec == 0)) {
            Err(StatusCode::ProgrammerError)
        } else {
            Ok(())
        }),
{
    if !has_iovec {
        return Ok(());
    }
    if ivec_num > 0 && in_vec == 0 {
        return Err(StatusCode::ProgrammerError);
    }
    if ovec_num > 0 && out_vec == 0 {
        return Err(StatusCode::ProgrammerError);
    }
    Ok(())
}

/// The end address of a vector does not overflow the address space.
pub open spec fn spec_end_fits(v: FFInVec) -> bool {
    v.base + v.len <= usize::MAX
}

/// Two input vectors overlap.
pub open spec fn spec_overlap(left: FFInVec, right: FFInVec) -> bool {
    right.base < left.base + left.len && left.base < right.base + right.len
}

/// Input vectors are acceptable: fewer than two of them, or no end address
/// overflows and no two of them overlap.
pub open spec fn spec_invecs_nonoverlap(v: Seq<FFInVec>) -> bool {
    v.len() < 2 || ((forall|k: int| 0 <= k < v.len() ==> spec_end_fits(#[trigger] v[k])) && (forall|
        i: int,
        j: int,
    |
        0 <= i < j < v.len() ==> !spec_overlap(#[trigger] v[i], #[trigger] v[j])))
}

/// Input vectors that are accepted lie apart: of any two different ones,
/// one ends at or before the other begins, whichever their positions in
/// the list.
pub proof fn law_accepted_invecs_pairwise_disjoint(v: Seq<FFInVec>)
    requires
        spec_invecs_nonoverlap(v),
    ensures
        forall|i: int, j: int|
            0 <= i < v.len() && 0 <= j < v.len() && i != j ==> #[trigger] v[i].base + v[i].len <= #[trigger] v[j].base
                || v[j].base + v[j].len <= v[i].base,
{
    assert forall|i: int, j: int| 0 <= i < v.len() && 0 <= j < v.len() && i != j implies #[trigger] v[i].base
        + v[i].len <= #[trigger] v[j].base || v[j].base + v[j].len <= v[i].base by {
        if i < j {
            assert(!spec_overlap(v[i], v[j]));
        } else {
            assert(!spec_overlap(v[j], v[i]));
        }
    }
}

/// Rejects input vectors whose ranges overflow the address space or overlap
/// one another.
pub fn validate_invec_payload_nonoverlap(in_vecs: &[FFInVec]) -> (r: Result<(), StatusCode>)
    ensures
        r == (if spec_invecs_nonoverlap(in_vecs@) {
            Ok(())
        } else {
            Err(StatusCode::ProgrammerError)
        }),
        r is Ok ==> forall|i: int, j: int|
            0 <= i < in_vecs@.len() && 0 <= j < in_vecs@.len() && i != j ==> #[trigger] in_vecs@[i].base
                + in_vecs@[i].len <= #[trigger] in_vecs@[j].base || in_vecs@[j].base + in_vecs@[j].len
                <= in_vecs@[i].base,
{
    let n = in_vecs.len();
    if n < 2 {
        return Ok(());
    }
    let mut i: usize = 0;
    while i < n - 1
        invariant
            n == in_vecs@.len(),
            n >= 2,
            0 <= i <= n - 1,
            i > 0 ==> forall|k: int| 0 <= k < n ==> spec_end_fits(#[trigger] in_vecs@[k]),
            forall|a: int, b: int| 0 <= a < i && a < b < n ==> !spec_overlap(#[trigger] in_vecs@[a], #[trigger] in_vecs@[b]),
        decreases n - 1 - i,
    {
        let left = in_vecs[i];
        let left_end = match left.base.checked_add(left.len) {
            Some(e) => e,
            None => {
                return Err(StatusCode::ProgrammerError);
            },
        };
        let mut j: usize = i + 1;
        while j < n
            invariant
                n == in_vecs@.len(),
                n >= 2,
                0 <= i < j <= n,
                i < n - 1,
                left == in_vecs@[i as int],
                left_end == left.base + left.len,
                spec_end_fits(left),
                i > 0 ==> forall|k: int| 0 <= k < n ==> spec_end_fits(#[trigger] in_vecs@[k]),
                forall|k: int| i < k < j ==> spec_end_fits(#[trigger] in_vecs@[k]),
                forall|a: int, b: int| 0 <= a < i && a < b < n ==> !spec_overlap(#[trigger] in_vecs@[a], #[trigger] in_vecs@[b]),
                forall|b: int| i < b < j ==> !spec_overlap(in_vecs@[i as int], #[trigger] in_vecs@[b]),
            decreases n - j,
        {
            let right = in_vecs[j];
            let right_end = match right.base.checked_add(right.len) {
                Some(e) => e,
                None => {
                    return Err(StatusCode::ProgrammerError);
                },
            };
            if right.base < left_end && left.base < right_end {
                assert(spec_overlap(in_vecs@[i as int], in_vecs@[j as int]));
                return Err(StatusCode::ProgrammerError);
            }
            j = j + 1;
        }
        assert(forall|k: int| 0 <= k < n ==> spec_end_fits(#[trigger] in_vecs@[k]));
        i = i + 1;
    }
    assert(spec_invecs_nonoverlap(in_vecs@));
    proof {
        law_accepted_invecs_pairwise_disjoint(in_vecs@);
    }
    Ok(())
}


/// What `validate_pointer_range` returns: an empty range is always fine; a
/// non-empty one must not start at address zero nor run past the end of the
/// address space.
pub open spec fn spec_validate_pointer_range(base: usize, len: usize) -> Result<(), StatusCode> {
    if len == 0 {
        Ok(())
    } else if base == 0 || base + len > usize::MAX {
        Err(StatusCode::ProgrammerError)
    } else {
        Ok(())
    }
}

/// Checks that `[base, base + len)` is a usable range.
pub fn validate_pointer_range(base: usize, len: usize) -> (r: Result<(), StatusCode>)
    ensures
        r == spec_validate_pointer_range(base, len),
{
    if len == 0 {
        return Ok(());
    }
    if base == 0 {
        return Err(StatusCode::ProgrammerError);
    }
    if base.checked_add(len).is_none() {
        return Err(StatusCode::ProgrammerError);
    }
    Ok(())
}

/// What `validate_memory_permission` returns.
pub open spec fn spec_validate_memory_permission<S: MemoryPermission>(
    spm: &S,
    base: usize,
    len: usize,
    is_write: bool,
    caller: CallerAttributes,
) -> Result<(), StatusCode> {
    if len == 0 || spm.spec_permits(base, len, is_write, caller) {
        Ok(())
    } else {
        Err(StatusCode::InvalidArgument)
    }
}

/// Checks that the caller may access the (non-empty) range.
pub fn validate_memory_permission<S: MemoryPermission>(
    spm: &S,
    base: usize,
    len: usize,
    is_write: bool,
    caller: CallerAttributes,
) -> (r: Result<(), StatusCode>)
    ensures
        r == spec_validate_memory_permission(spm, base, len, is_write, caller),
{
    if len == 0 {
        return Ok(());
    }
    if spm.has_real_permission(base, len, is_write, caller) {
        Ok(())
    } else {
        Err(StatusCode::InvalidArgument)
    }
}

/// The check of one vector: its range first, then the caller's permission.
pub open spec fn spec_check_vec<S: MemoryPermission>(
    spm: &S,
    base: usize,
    len: usize,
    is_write: bool,
    caller: CallerAttributes,
) -> Result<(), StatusCode> {
    if spec_validate_pointer_range(base, len) is Err {
        spec_validate_pointer_range(base, len)
    } else {
        spec_validate_memory_permission(spm, base, len, is_write, caller)
    }
}

/// The first failing check among the input vectors `v[0..n]`.
pub open spec fn spec_check_invecs<S: MemoryPermission>(
    spm: &S,
    v: Seq<FFInVec>,
    n: nat,
    caller: CallerAttributes,
) -> Result<(), StatusCode>
    decreases n,
{
    if n == 0 {
        Ok(())
    } else if spec_check_invecs(spm, v, (n - 1) as nat, caller) is Err {
        spec_check_invecs(spm, v, (n - 1) as nat, caller)
    } else {
        spec_check_vec(spm, v[n - 1].base, v[n - 1].len, false, caller)
    }
}

/// The first failing check among the output vectors `v[0..n]`.
pub open spec fn spec_check_outvecs<S: MemoryPermission>(
    spm: &S,
    v: Seq<FFOutVec>,
    n: nat,
    caller: CallerAttributes,
) -> Result<(), StatusCode>
    decreases n,
{
    if n == 0 {
        Ok(())
    } else if spec_check_outvecs(spm, v, (n - 1) as nat, caller) is Err {
        spec_check_outvecs(spm, v, (n - 1) as nat, caller)
    } else {
        spec_check_vec(spm, v[n - 1].base, v[n - 1].len, true, caller)
    }
}

/// Once a prefix of the input vectors fails a check, every longer prefix
/// fails with the same error.
proof fn lemma_check_invecs_stays_err<S: MemoryPermission>(
    spm: &S,
    v: Seq<FFInVec>,
    k: nat,
    m: nat,
    caller: CallerAttributes,
)
    requires
        k <= m,
        spec_check_invecs(spm, v, k, caller) is Err,
    ensures
        spec_check_invecs(spm, v, m, caller) == spec_check_invecs(spm, v, k, caller),
    decreases m - k,
{
    if m > k {
        lemma_check_invecs_stays_err(spm, v, k, (m - 1) as nat, caller);
    }
}

/// Once a prefix of the output vectors fails a check, every longer prefix
/// fails with the same error.
proof fn lemma_check_outvecs_stays_err<S: MemoryPermission>(
    spm: &S,
    v: Seq<FFOutVec>,
    k: nat,
    m: nat,
    caller: CallerAttributes,
)
    requires
        k <= m,
        spec_check_outvecs(spm, v, k, caller) is Err,
    ensures
        spec_check_outvecs(spm, v, m, caller) == spec_check_outvecs(spm, v, k, caller),
    decreases m - k,
{
    if m > k {
        lemma_check_outvecs_stays_err(spm, v, k, (m - 1) as nat, caller);
    }
}

/// The outcome of `call_from_slices` when it fails, `Ok(())` when it succeeds.
pub open spec fn spec_call_from_slices_status<S: MemoryPermission>(
    spm: &S,
    ctrl_param: CtrlParam,
    in_vecs: Seq<FFInVec>,
    out_vecs: Seq<FFOutVec>,
    caller: CallerAttributes,
) -> Result<(), StatusCode> {
    let p = spec_validate_call_params(ctrl_param.raw);
    if p is Err {
        Err(p->Err_0)
    } else if in_vecs.len() != p->Ok_0.1 || out_vecs.len() != p->Ok_0.2 {
        Err(StatusCode::ProgrammerError)
    } else if !spec_invecs_nonoverlap(in_vecs) {
        Err(StatusCode::ProgrammerError)
    } else if spec_check_invecs(spm, in_vecs, in_vecs.len(), caller) is Err {
        spec_check_invecs(spm, in_vecs, in_vecs.len(), caller)
    } else {
        spec_check_outvecs(spm, out_vecs, out_vecs.len(), caller)
    }
}

/// The connection record of a new call: the message carries the handle,
/// request type, caller and the vectors' sizes; the vector addresses are
/// recorded; nothing is mapped, read or written yet.
pub open spec fn spec_new_connection(
    c: Connection,
    handle: ServiceHandle,
    msg_type: i32,
    caller: CallerAttributes,
    in_vecs: Seq<FFInVec>,
    out_vecs: Seq<FFOutVec>,
) -> bool {
    &&& c.msg.handle == handle
    &&& c.msg.msg_type == msg_type
    &&& c.msg.caller == caller
    &&& forall|i: int|
        0 <= i < PSA_MAX_IOVEC ==> {
            &&& (#[trigger] c.msg.in_size@[i]).0 == (if i < in_vecs.len() {
                in_vecs[i].len
            } else {
                NONE_SENTINEL
            })
            &&& c.invec_base@[i] == (if i < in_vecs.len() {
                in_vecs[i].base
            } else {
                0
            })
            &&& c.msg.out_size@[i].0 == (if i < out_vecs.len() {
                out_vecs[i].len
            } else {
                NONE_SENTINEL
            })
            &&& c.outvec_base@[i] == (if i < out_vecs.len() {
                out_vecs[i].base
            } else {
                0
            })
            &&& c.invec_accessed@[i] == 0
            &&& c.outvec_written@[i] == 0
            &&& !c.invec_mapped@[i]
            &&& !c.invec_unmapped@[i]
            &&& !c.outvec_mapped@[i]
            &&& !c.outvec_unmapped@[i]
        }
}

/// Validates a call and builds its connection record. The checks come in
/// this order: the control parameter, the number of vectors passed against
/// the numbers it announces, the input vectors' overlap, then each input and
/// each output vector's range and the caller's permission on it.
pub fn call_from_slices<S: MemoryPermission>(
    spm: &S,
    handle: ServiceHandle,
    ctrl_param: CtrlParam,
    in_vecs: &[FFInVec],
    out_vecs: &[FFOutVec],
    caller: CallerAttributes,
) -> (r: Result<Connection, StatusCode>)
    ensures
        spec_call_from_slices_status(spm, ctrl_param, in_vecs@, out_vecs@, caller) is Err ==> r
            == Err::<Connection, StatusCode>(
            spec_call_from_slices_status(spm, ctrl_param, in_vecs@, out_vecs@, caller)->Err_0,
        ),
        spec_call_from_slices_status(spm, ctrl_param, in_vecs@, out_vecs@, caller) is Ok ==> r is Ok
            && spec_new_connection(
            r->Ok_0,
            handle,
            spec_validate_call_params(ctrl_param.raw)->Ok_0.0,
            caller,
            in_vecs@,
            out_vecs@,
        ),
{
    let (msg_type, ivec_num, ovec_num) = validate_call_params(ctrl_param)?;
    if in_vecs.len() != ivec_num || out_vecs.len() != ovec_num {
        return Err(StatusCode::ProgrammerError);
    }
    validate_invec_payload_nonoverlap(in_vecs)?;
    let mut msg = PsaMsg::new(handle, msg_type, caller);
    let mut invec_base: [usize; PSA_MAX_IOVEC] = [0, 0, 0, 0];
    let mut outvec_base: [usize; PSA_MAX_IOVEC] = [0, 0, 0, 0];
    let mut idx: usize = 0;
    while idx < ivec_num
        invariant
            ivec_num == in_vecs@.len(),
            ovec_num == out_vecs@.len(),
            ivec_num + ovec_num <= PSA_MAX_IOVEC,
            spec_validate_call_params(ctrl_param.raw) == Ok::<(i32, usize, usize), StatusCode>((msg_type, ivec_num, ovec_num)),
            spec_invecs_nonoverlap(in_vecs@),
            0 <= idx <= ivec_num,
            msg.handle == handle,
            msg.msg_type == msg_type,
            msg.caller == caller,
            spec_check_invecs(spm, in_vecs@, idx as nat, caller) is Ok,
            forall|i: int|
                0 <= i < PSA_MAX_IOVEC ==> (#[trigger] msg.in_size@[i]).0 == (if i < idx {
                    in_vecs@[i].len
                } else {
                    NONE_SENTINEL
                }),
            forall|i: int|
                0 <= i < PSA_MAX_IOVEC ==> #[trigger] invec_base@[i] == (if i < idx {
                    in_vecs@[i].base
                } else {
                    0
                }),
            forall|i: int| 0 <= i < PSA_MAX_IOVEC ==> (#[trigger] msg.out_size@[i]).0 == NONE_SENTINEL,
            forall|i: int| 0 <= i < PSA_MAX_IOVEC ==> #[trigger] outvec_base@[i] == 0,
        decreases ivec_num - idx,
    {
        let v = in_vecs[idx];
        let ghost prev_base = invec_base@;
        let ghost prev_size = msg.in_size@;
        invec_base[idx] = v.base;
        msg.in_size[idx] = MaybeUsize::some(v.len);
        assert(invec_base@ == prev_base.update(idx as int, v.base));
        assert(msg.in_size@ == prev_size.update(idx as int, MaybeUsize(v.len)));
        assert forall|i: int| 0 <= i < PSA_MAX_IOVEC implies (#[trigger] msg.in_size@[i]).0 == (if i < idx + 1 {
                    in_vecs@[i].len
                } else {
                    NONE_SENTINEL
                }) by {
            if i == idx {
                assert(msg.in_size@[i] == MaybeUsize(v.len));
            } else {
                assert(msg.in_size@[i] == prev_size[i]);
            }
        }
        let r1 = validate_pointer_range(v.base, v.len);
        if r1.is_err() {
            proof {
                lemma_check_invecs_stays_err(spm, in_vecs@, (idx + 1) as nat, ivec_num as nat, caller);
            }
            return Err(StatusCode::ProgrammerError);
        }
        let r2 = validate_memory_permission(spm, v.base, v.len, false, caller);
        if r2.is_err() {
            proof {
                lemma_check_invecs_stays_err(spm, in_vecs@, (idx + 1) as nat, ivec_num as nat, caller);
            }
            return Err(StatusCode::InvalidArgument);
        }
        idx = idx + 1;
    }
    let mut odx: usize = 0;
    while odx < ovec_num
        invariant
            ivec_num == in_vecs@.len(),
            ovec_num == out_vecs@.len(),
            ivec_num + ovec_num <= PSA_MAX_IOVEC,
            spec_validate_call_params(ctrl_param.raw) == Ok::<(i32, usize, usize), StatusCode>((msg_type, ivec_num, ovec_num)),
            spec_invecs_nonoverlap(in_vecs@),
            0 <= odx <= ovec_num,
            msg.handle == handle,
            msg.msg_type == msg_type,
            msg.caller == caller,
            spec_check_invecs(spm, in_vecs@, ivec_num as nat, caller) is Ok,
            spec_check_outvecs(spm, out_vecs@, odx as nat, caller) is Ok,
            forall|i: int|
                0 <= i < PSA_MAX_IOVEC ==> (#[trigger] msg.in_size@[i]).0 == (if i < ivec_num {
                    in_vecs@[i].len
                } else {
                    NONE_SENTINEL
                }),
            forall|i: int|
                0 <= i < PSA_MAX_IOVEC ==> #[trigger] invec_base@[i] == (if i < ivec_num {
                    in_vecs@[i].base
                } else {
                    0
                }),
            forall|i: int|
                0 <= i < PSA_MAX_IOVEC ==> (#[trigger] msg.out_size@[i]).0 == (if i < odx {
                    out_vecs@[i].len
                } else {
                    NONE_SENTINEL
                }),
            forall|i: int|
                0 <= i < PSA_MAX_IOVEC ==> #[trigger] outvec_base@[i] == (if i < odx {
                    out_vecs@[i].base
                } else {
                    0
                }),
        decreases ovec_num - odx,
    {
        let v = out_vecs[odx];
        let ghost prev_base = outvec_base@;
        let ghost prev_size = msg.out_size@;
        outvec_base[odx] = v.base;
        msg.out_size[odx] = MaybeUsize::some(v.len);
        assert(outvec_base@ == prev_base.update(odx as int, v.base));
        assert(msg.out_size@ == prev_size.update(odx as int, MaybeUsize(v.len)));
        let r1 = validate_pointer_range(v.base, v.len);
        if r1.is_err() {
            proof {
                lemma_check_outvecs_stays_err(spm, out_vecs@, (odx + 1) as nat, ovec_num as nat, caller);
            }
            return Err(StatusCode::ProgrammerError);
        }
        let r2 = validate_memory_permission(spm, v.base, v.len, true, caller);
        if r2.is_err() {
            proof {
                lemma_check_outvecs_stays_err(spm, out_vecs@, (odx + 1) as nat, ovec_num as nat, caller);
            }
            return Err(StatusCode::InvalidArgument);
        }
        odx = odx + 1;
    }
    Ok(
        Connection {
            msg,
            invec_base,
            invec_accessed: [0, 0, 0, 0],
            invec_mapped: [false, false, false, false],
            invec_unmapped: [false, false, false, false],
            outvec_base,
            outvec_written: [0, 0, 0, 0],
            outvec_mapped: [false, false, false, false],
            outvec_unmapped: [false, false, false, false],
        },
    )
}

/// The size recorded for input vector `i` (zero when absent).
pub open spec fn spec_in_len_at(c: ConnectionView, i: int) -> usize {
    if c.in_size[i].0 != NONE_SENTINEL {
        c.in_size[i].0
    } else {
        0
    }
}

/// The size recorded for output vector `i` (zero when absent).
pub open spec fn spec_out_len_at(c: ConnectionView, i: int) -> usize {
    if c.out_size[i].0 != NONE_SENTINEL {
        c.out_size[i].0
    } else {
        0
    }
}

/// All arrays of a connection have `PSA_MAX_IOVEC` entries.
pub open spec fn spec_conn_shape(c: ConnectionView) -> bool {
    &&& c.in_size.len() == PSA_MAX_IOVEC
    &&& c.out_size.len() == PSA_MAX_IOVEC
    &&& c.invec_base.len() == PSA_MAX_IOVEC
    &&& c.invec_accessed.len() == PSA_MAX_IOVEC
    &&& c.invec_mapped.len() == PSA_MAX_IOVEC
    &&& c.invec_unmapped.len() == PSA_MAX_IOVEC
    &&& c.outvec_base.len() == PSA_MAX_IOVEC
    &&& c.outvec_written.len() == PSA_MAX_IOVEC
    &&& c.outvec_mapped.len() == PSA_MAX_IOVEC
    &&& c.outvec_unmapped.len() == PSA_MAX_IOVEC
}

/// Every connection has the shape above.
pub proof fn lemma_conn_shape(c: Connection)
    ensures
        spec_conn_shape(c@),
{
}

/// What `prepare_invec` returns: input vector `i` can be mapped when the
/// index is in range and it was neither mapped nor read before.
pub open spec fn spec_prepare_invec_result(c: ConnectionView, idx: u32) -> Result<(usize, usize, usize), StatusCode> {
    let i = idx as int;
    if i >= PSA_MAX_IOVEC {
        Err(StatusCode::ProgrammerError)
    } else if c.invec_mapped[i] || c.invec_accessed[i] != 0 {
        Err(StatusCode::ProgrammerError)
    } else {
        Ok((idx as usize, spec_in_len_at(c, i), c.invec_base[i]))
    }
}

/// The connection after `prepare_invec`: on success input vector `i` is
/// marked mapped; on failure nothing changes.
pub open spec fn spec_prepare_invec(c: ConnectionView, idx: u32) -> ConnectionView {
    if spec_prepare_invec_result(c, idx) is Ok {
        ConnectionView { invec_mapped: c.invec_mapped.update(idx as int, true), ..c }
    } else {
        c
    }
}

/// Marks input vector `invec_idx` as mapped and returns its index, length
/// and address.
pub fn prepare_invec(connection: &mut Connection, invec_idx: u32) -> (r: Result<(usize, usize, usize), StatusCode>)
    ensures
        r == spec_prepare_invec_result(old(connection)@, invec_idx),
        final(connection)@ == spec_prepare_invec(old(connection)@, invec_idx),
{
    let index = invec_idx as usize;
    if index >= PSA_MAX_IOVEC {
        return Err(StatusCode::ProgrammerError);
    }
    let in_len = connection.msg.in_size[index].unwrap_or(0);
    let is_mapped = connection.invec_mapped[index];
    let is_accessed = connection.invec_accessed[index] != 0;
    if is_mapped || is_accessed {
        return Err(StatusCode::ProgrammerError);
    }
    let base = connection.invec_base[index];
    connection.invec_mapped[index] = true;
    proof {
        assert(final(connection)@.invec_mapped =~= old(connection)@.invec_mapped.update(index as int, true));
    }
    Ok((index, in_len, base))
}

/// What `mark_invec_unmapped` returns: the index must be in range and the
/// vector not unmapped before.
pub open spec fn spec_mark_invec_unmapped_result(c: ConnectionView, index: usize) -> Result<(), StatusCode> {
    if index >= PSA_MAX_IOVEC || c.invec_unmapped[index as int] {
        Err(StatusCode::ProgrammerError)
    } else {
        Ok(())
    }
}

/// The connection after `mark_invec_unmapped`.
pub open spec fn spec_mark_invec_unmapped(c: ConnectionView, index: usize) -> ConnectionView {
    if spec_mark_invec_unmapped_result(c, index) is Ok {
        ConnectionView { invec_unmapped: c.invec_unmapped.update(index as int, true), ..c }
    } else {
        c
    }
}

/// Records that input vector `index` has been released.
pub fn mark_invec_unmapped(connection: &mut Connection, index: usize) -> (r: Result<(), StatusCode>)
    ensures
        r == spec_mark_invec_unmapped_result(old(connection)@, index),
        final(connection)@ == spec_mark_invec_unmapped(old(connection)@, index),
{
    if index >= PSA_MAX_IOVEC {
        return Err(StatusCode::ProgrammerError);
    }
    if connection.invec_unmapped[index] {
        return Err(StatusCode::ProgrammerError);
    }
    connection.invec_unmapped[index] = true;
    proof {
        assert(final(connection)@.invec_unmapped =~= old(connection)@.invec_unmapped.update(index as int, true));
    }
    Ok(())
}

/// What `prepare_outvec` returns: output vector `i` can be mapped when the
/// index is in range and it was neither mapped nor written before.
pub open spec fn spec_prepare_outvec_result(c: ConnectionView, idx: u32) -> Result<(usize, usize, usize), StatusCode> {
    let i = idx as int;
    if i >= PSA_MAX_IOVEC {
        Err(StatusCode::ProgrammerError)
    } else if c.outvec_mapped[i] || c.outvec_written[i] != 0 {
        Err(StatusCode::ProgrammerError)
    } else {
        Ok((idx as usize, spec_out_len_at(c, i), c.outvec_base[i]))
    }
}

/// The connection after `prepare_outvec`.
pub open spec fn spec_prepare_outvec(c: ConnectionView, idx: u32) -> ConnectionView {
    if spec_prepare_outvec_result(c, idx) is Ok {
        ConnectionView { outvec_mapped: c.outvec_mapped.update(idx as int, true), ..c }
    } else {
        c
    }
}

/// Marks output vector `outvec_idx` as mapped and returns its index,
/// capacity and address.
pub fn prepare_outvec(connection: &mut Connection, outvec_idx: u32) -> (r: Result<(usize, usize, usize), StatusCode>)
    ensures
        r == spec_prepare_outvec_result(old(connection)@, outvec_idx),
        final(connection)@ == spec_prepare_outvec(old(connection)@, outvec_idx),
{
    let index = outvec_idx as usize;
    if index >= PSA_MAX_IOVEC {
        return Err(StatusCode::ProgrammerError);
    }
    let out_len = connection.msg.out_size[index].unwrap_or(0);
    let is_mapped = connection.outvec_mapped[index];
    let is_written = connection.outvec_written[index] != 0;
    if is_mapped || is_written {
        return Err(StatusCode::ProgrammerError);
    }
    let base = connection.outvec_base[index];
    connection.outvec_mapped[index] = true;
    proof {
        assert(final(connection)@.outvec_mapped =~= old(connection)@.outvec_mapped.update(index as int, true));
    }
    Ok((index, out_len, base))
}

/// What `commit_outvec_write` returns: the index must be in range, the
/// vector not yet released and the written length within its capacity.
pub open spec fn spec_commit_outvec_write_result(c: ConnectionView, out_index: usize, out_len: usize, written_len: usize) -> Result<(), StatusCode> {
    if out_index >= PSA_MAX_IOVEC || c.outvec_unmapped[out_index as int] || written_len > out_len {
        Err(StatusCode::ProgrammerError)
    } else {
        Ok(())
    }
}

/// The connection after `commit_outvec_write`: the written length becomes
/// both the vector's written count and its reported size, and the vector is
/// released.
pub open spec fn spec_commit_outvec_write(c: ConnectionView, out_index: usize, out_len: usize, written_len: usize) -> ConnectionView {
    if spec_commit_outvec_write_result(c, out_index, out_len, written_len) is Ok {
        let i = out_index as int;
        ConnectionView {
            outvec_written: c.outvec_written.update(i, written_len),
            out_size: c.out_size.update(i, MaybeUsize(written_len)),
            outvec_unmapped: c.outvec_unmapped.update(i, true),
            ..c
        }
    } else {
        c
    }
}

/// Records that `written_len` bytes were written to output vector
/// `out_index` (of capacity `out_len`) and releases it.
pub fn commit_outvec_write(
    connection: &mut Connection,
    out_index: usize,
    out_len: usize,
    written_len: usize,
) -> (r: Result<(), StatusCode>)
    ensures
        r == spec_commit_outvec_write_result(old(connection)@, out_index, out_len, written_len),
        final(connection)@ == spec_commit_outvec_write(old(connection)@, out_index, out_len, written_len),
{
    if out_index >= PSA_MAX_IOVEC {
        return Err(StatusCode::ProgrammerError);
    }
    if connection.outvec_unmapped[out_index] || written_len > out_len {
        return Err(StatusCode::ProgrammerError);
    }
    connection.outvec_written[out_index] = written_len;
    connection.msg.out_size[out_index] = MaybeUsize::some(written_len);
    connection.outvec_unmapped[out_index] = true;
    proof {
        let i = out_index as int;
        assert(final(connection)@.outvec_written =~= old(connection)@.outvec_written.update(i, written_len));
        assert(final(connection)@.out_size =~= old(connection)@.out_size.update(i, MaybeUsize(written_len)));
        assert(final(connection)@.outvec_unmapped =~= old(connection)@.outvec_unmapped.update(i, true));
    }
    Ok(())
}

/// A step of the vector protocol that a sandboxed service asks for.
#[derive(Clone, Copy, Debug, PartialEq, Eq, Structural)]
pub enum VecOp {
    PrepareInvec(u32),
    FinishInvec(u32),
    PrepareOutvec(u32),
    FinishOutvec(u32, usize),
}

/// The result and new connection of one protocol step.
pub open spec fn spec_apply_vec_op(c: ConnectionView, op: VecOp) -> (ConnectionView, Result<RawVec, StatusCode>) {
    match op {
        VecOp::PrepareInvec(i) => (
            spec_prepare_invec(c, i),
            match spec_prepare_invec_result(c, i) {
                Ok((_, len, base)) => Ok(RawVec { base, len }),
                Err(e) => Err(e),
            },
        ),
        VecOp::FinishInvec(i) => (
            spec_mark_invec_unmapped(c, i as usize),
            match spec_mark_invec_unmapped_result(c, i as usize) {
                Ok(()) => Ok(RawVec { base: 0, len: 0 }),
                Err(e) => Err(e),
            },
        ),
        VecOp::PrepareOutvec(i) => (
            spec_prepare_outvec(c, i),
            match spec_prepare_outvec_result(c, i) {
                Ok((_, len, base)) => Ok(RawVec { base, len }),
                Err(e) => Err(e),
            },
        ),
        VecOp::FinishOutvec(i, w) => {
            let len = if (i as int) < PSA_MAX_IOVEC {
                spec_out_len_at(c, i as int)
            } else {
                0
            };
            (
                spec_commit_outvec_write(c, i as usize, len, w),
                match spec_commit_outvec_write_result(c, i as usize, len, w) {
                    Ok(()) => Ok(RawVec { base: 0, len: 0 }),
                    Err(e) => Err(e),
                },
            )
        },
    }
}

fn apply_vec_op(connection: &mut Connection, op: VecOp) -> (r: Result<RawVec, StatusCode>)
    ensures
        final(connection)@ == spec_apply_vec_op(old(connection)@, op).0,
        r == spec_apply_vec_op(old(connection)@, op).1,
{
    match op {
        VecOp::PrepareInvec(i) => {
            let (_, len, base) = prepare_invec(connection, i)?;
            Ok(RawVec { base, len })
        },
        VecOp::FinishInvec(i) => {
            mark_invec_unmapped(connection, i as usize)?;
            Ok(RawVec { base: 0, len: 0 })
        },
        VecOp::PrepareOutvec(i) => {
            let (_, len, base) = prepare_outvec(connection, i)?;
            Ok(RawVec { base, len })
        },
        VecOp::FinishOutvec(i, w) => {
            let index = i as usize;
            let out_len = if index < PSA_MAX_IOVEC {
                connection.msg.out_size[index].unwrap_or(0)
            } else {
                0
            };
            commit_outvec_write(connection, index, out_len, w)?;
            Ok(RawVec { base: 0, len: 0 })
        },
    }
}

/// The result of running a protocol step on the innermost connection after
/// checking that it is the call `msg_handle` names and a request.
pub open spec fn spec_validated_result(m: StackModel, msg_handle: ServiceHandle, op: VecOp) -> Result<RawVec, StatusCode> {
    let t = spec_take_result(m);
    if t is Err {
        Err(StatusCode::CommunicationFailure)
    } else {
        let c = t->Ok_0.1;
        if c.msg.handle != msg_handle {
            Err(StatusCode::InvalidHandle)
        } else if c.msg.msg_type < 0 {
            Err(StatusCode::ProgrammerError)
        } else {
            spec_apply_vec_op(c@, op).1
        }
    }
}

/// The innermost connection after the step (unchanged when the checks fail).
pub open spec fn spec_validated_conn(m: StackModel, msg_handle: ServiceHandle, op: VecOp) -> ConnectionView {
    let c = spec_take_result(m)->Ok_0.1;
    if c.msg.handle != msg_handle || c.msg.msg_type < 0 {
        c@
    } else {
        spec_apply_vec_op(c@, op).0
    }
}

/// `new` is `old` with the innermost connection replaced by one whose value is `cv`.
pub open spec fn spec_top_replaced(old_m: StackModel, new_m: StackModel, cv: ConnectionView) -> bool {
    &&& new_m.top == old_m.top
    &&& new_m.slots.len() == old_m.slots.len()
    &&& old_m.top > 0
    &&& forall|j: int| 0 <= j < old_m.slots.len() && j != old_m.top - 1 ==> new_m.slots[j] == old_m.slots[j]
    &&& new_m.slots[old_m.top - 1] is Some
    &&& new_m.slots[old_m.top - 1]->0@ == cv
}

/// The stack after a validated step: unchanged when there is no innermost
/// connection, otherwise with the innermost connection updated in place.
pub open spec fn spec_validated_post(old_m: StackModel, new_m: StackModel, msg_handle: ServiceHandle, op: VecOp) -> bool {
    if spec_take_result(old_m) is Err {
        new_m == old_m
    } else {
        spec_top_replaced(old_m, new_m, spec_validated_conn(old_m, msg_handle, op))
    }
}

fn with_validated_connection(connections: &mut ConnectionArray, msg_handle: ServiceHandle, op: VecOp) -> (r: Result<RawVec, StatusCode>)
    requires
        old(connections).wf(),
    ensures
        final(connections).wf(),
        r == spec_validated_result(old(connections)@, msg_handle, op),
        spec_validated_post(old(connections)@, final(connections)@, msg_handle, op),
{
    let (index, mut connection) = match connections.take_active_connection() {
        Ok(t) => t,
        Err(_) => {
            return Err(StatusCode::CommunicationFailure);
        },
    };
    let ghost taken = connections@;
    let result = if connection.msg.handle != msg_handle {
        Err(StatusCode::InvalidHandle)
    } else if connection.msg.msg_type < 0 {
        Err(StatusCode::ProgrammerError)
    } else {
        apply_vec_op(&mut connection, op)
    };
    let restored = connections.restore_active_connection(index, connection);
    proof {
        assert(spec_can_restore(taken, index));
    }
    match restored {
        Ok(()) => {},
        Err(_) => {
            return Err(StatusCode::CommunicationFailure);
        },
    }
    result
}

/// Maps input vector `invec_idx` of the innermost call, which must be the
/// call `msg_handle` names, and returns its address and length.
pub fn prepare_invec_raw(connections: &mut ConnectionArray, msg_handle: ServiceHandle, invec_idx: u32) -> (r: Result<RawVec, StatusCode>)
    requires
        old(connections).wf(),
    ensures
        final(connections).wf(),
        r == spec_validated_result(old(connections)@, msg_handle, VecOp::PrepareInvec(invec_idx)),
        spec_validated_post(old(connections)@, final(connections)@, msg_handle, VecOp::PrepareInvec(invec_idx)),
{
    with_validated_connection(connections, msg_handle, VecOp::PrepareInvec(invec_idx))
}

/// Releases input vector `invec_idx` of the innermost call.
pub fn finish_invec_raw(connections: &mut ConnectionArray, msg_handle: ServiceHandle, invec_idx: u32) -> (r: Result<(), StatusCode>)
    requires
        old(connections).wf(),
    ensures
        final(connections).wf(),
        r == match spec_validated_result(old(connections)@, msg_handle, VecOp::FinishInvec(invec_idx)) {
            Ok(_) => Ok(()),
            Err(e) => Err(e),
        },
        spec_validated_post(old(connections)@, final(connections)@, msg_handle, VecOp::FinishInvec(invec_idx)),
{
    match with_validated_connection(connections, msg_handle, VecOp::FinishInvec(invec_idx)) {
        Ok(_) => Ok(()),
        Err(e) => Err(e),
    }
}

/// Maps output vector `outvec_idx` of the innermost call and returns its
/// address and capacity.
pub fn prepare_outvec_raw(connections: &mut ConnectionArray, msg_handle: ServiceHandle, outvec_idx: u32) -> (r: Result<RawVec, StatusCode>)
    requires
        old(connections).wf(),
    ensures
        final(connections).wf(),
        r == spec_validated_result(old(connections)@, msg_handle, VecOp::PrepareOutvec(outvec_idx)),
        spec_validated_post(old(connections)@, final(connections)@, msg_handle, VecOp::PrepareOutvec(outvec_idx)),
{
    with_validated_connection(connections, msg_handle, VecOp::PrepareOutvec(outvec_idx))
}

/// Commits `written_len` bytes to output vector `outvec_idx` of the
/// innermost call and releases it.
pub fn finish_outvec_raw(
    connections: &mut ConnectionArray,
    msg_handle: ServiceHandle,
    outvec_idx: u32,
    written_len: usize,
) -> (r: Result<(), StatusCode>)
    requires
        old(connections).wf(),
    ensures
        final(connections).wf(),
        r == match spec_validated_result(old(connections)@, msg_handle, VecOp::FinishOutvec(outvec_idx, written_len)) {
            Ok(_) => Ok(()),
            Err(e) => Err(e),
        },
        spec_validated_post(old(connections)@, final(connections)@, msg_handle, VecOp::FinishOutvec(outvec_idx, written_len)),
{
    match with_validated_connection(connections, msg_handle, VecOp::FinishOutvec(outvec_idx, written_len)) {
        Ok(_) => Ok(()),
        Err(e) => Err(e),
    }
}

/// An input vector is mapped at most once: once `prepare_invec` has
/// succeeded for it, asking again fails with `ProgrammerError`.
pub proof fn law_invec_mapped_once(c: ConnectionView, idx: u32)
    requires
        spec_conn_shape(c),
        spec_prepare_invec_result(c, idx) is Ok,
    ensures
        spec_prepare_invec_result(spec_prepare_invec(c, idx), idx) == Err::<(usize, usize, usize), StatusCode>(
            StatusCode::ProgrammerError,
        ),
{
}

/// An output vector is mapped at most once.
pub proof fn law_outvec_mapped_once(c: ConnectionView, idx: u32)
    requires
        spec_conn_shape(c),
        spec_prepare_outvec_result(c, idx) is Ok,
    ensures
        spec_prepare_outvec_result(spec_prepare_outvec(c, idx), idx) == Err::<(usize, usize, usize), StatusCode>(
            StatusCode::ProgrammerError,
        ),
{
}

/// An input vector is released at most once.
pub proof fn law_invec_released_once(c: ConnectionView, index: usize)
    requires
        spec_conn_shape(c),
        spec_mark_invec_unmapped_result(c, index) is Ok,
    ensures
        spec_mark_invec_unmapped_result(spec_mark_invec_unmapped(c, index), index) == Err::<(), StatusCode>(
            StatusCode::ProgrammerError,
        ),
{
}

/// Mapping an output vector and then committing a length within its
/// capacity succeeds; afterwards the vector reports the written length as
/// its size and can be neither committed nor mapped again.
pub proof fn law_outvec_commit(c: ConnectionView, idx: u32, written_len: usize)
    requires
        spec_conn_shape(c),
        spec_prepare_outvec_result(c, idx) is Ok,
        !c.outvec_unmapped[idx as int],
        written_len <= spec_prepare_outvec_result(c, idx)->Ok_0.1,
        written_len != NONE_SENTINEL,
    ensures
        ({
            let (i, cap, _) = spec_prepare_outvec_result(c, idx)->Ok_0;
            let mapped = spec_prepare_outvec(c, idx);
            let done = spec_commit_outvec_write(mapped, i, cap, written_len);
            &&& spec_commit_outvec_write_result(mapped, i, cap, written_len) is Ok
            &&& done.out_size[i as int].spec_option() == Some(written_len)
            &&& done.outvec_written[i as int] == written_len
            &&& spec_commit_outvec_write_result(done, i, cap, written_len) is Err
            &&& spec_prepare_outvec_result(done, idx) is Err
        }),
{
}

/// What a call records is what its service reads: on the connection that
/// `call_from_slices` builds, mapping input vector `i` hands out exactly the
/// address and length the caller passed, and likewise for output vector `i`.
pub proof fn law_connection_maps_caller_vectors(
    c: Connection,
    handle: ServiceHandle,
    msg_type: i32,
    caller: CallerAttributes,
    in_vecs: Seq<FFInVec>,
    out_vecs: Seq<FFOutVec>,
    i: u32,
)
    requires
        spec_new_connection(c, handle, msg_type, caller, in_vecs, out_vecs),
        forall|k: int| 0 <= k < in_vecs.len() ==> #[trigger] in_vecs[k].len != NONE_SENTINEL,
        forall|k: int| 0 <= k < out_vecs.len() ==> #[trigger] out_vecs[k].len != NONE_SENTINEL,
    ensures
        (i as int) < in_vecs.len() && (i as int) < PSA_MAX_IOVEC ==> spec_prepare_invec_result(c@, i) == Ok::<
            (usize, usize, usize),
            StatusCode,
        >((i as usize, in_vecs[i as int].len, in_vecs[i as int].base)),
        (i as int) < out_vecs.len() && (i as int) < PSA_MAX_IOVEC ==> spec_prepare_outvec_result(c@, i) == Ok::<
            (usize, usize, usize),
            StatusCode,
        >((i as usize, out_vecs[i as int].len, out_vecs[i as int].base)),
{
    if (i as int) < PSA_MAX_IOVEC {
        let k = i as int;
        assert(c.msg.in_size@[k].0 == (if k < in_vecs.len() { in_vecs[k].len } else { NONE_SENTINEL }));
        assert(c.msg.out_size@[k].0 == (if k < out_vecs.len() { out_vecs[k].len } else { NONE_SENTINEL }));
    }
}

/// The vectors of a call that `call_from_slices` accepts never have length
/// `usize::MAX` (a non-empty vector starts above address zero and must not
/// run past the end of the address space), so the side condition of the law
/// above always holds for accepted calls.
pub proof fn law_accepted_vectors_are_shorter_than_max<S: MemoryPermission>(
    spm: &S,
    v: Seq<FFInVec>,
    n: nat,
    caller: CallerAttributes,
    k: int,
)
    requires
        n <= v.len(),
        spec_check_invecs(spm, v, n, caller) is Ok,
        0 <= k < n,
    ensures
        v[k].len != NONE_SENTINEL,
    decreases n,
{
    if k < n - 1 {
        law_accepted_vectors_are_shorter_than_max(spm, v, (n - 1) as nat, caller, k);
    }
}
} // verus!
