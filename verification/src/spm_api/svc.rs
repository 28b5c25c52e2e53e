//! Supervisor-call dispatch: the register frame a sandboxed service traps
//! with is decoded, the request carried out on the partition manager, and
//! the outcome written back into the frame.
use vstd::prelude::*;

use crate::spm::connection_stack::{spec_unused_slots_empty, StackModel, MAX_CONNECTIONS};
use crate::spm::process::IpcProcess;
use crate::spm::spm_fn::{SfnPlatform, SpmFn};
use crate::spm::spm_ipc::{spec_first_with_handle, spec_set_mapping, IpcPlatform, SpmIpc};
use crate::spm_api::connection::{
    call_from_slices, finish_invec_raw, finish_outvec_raw, prepare_invec_raw, prepare_outvec_raw,
    spec_top_replaced, spec_validated_conn, spec_validated_post, spec_validated_result,
    validate_call_params, validate_vec_pointer_shape, VecOp,
};
use crate::spm_api::{CallerAttributes, RawVec};
use crate::status::{spec_status_from_value, spec_status_value, PsaStatus, StatusCode};
use crate::types::{spec_handle_value, CtrlParam, FFInVec, FFOutVec, ServiceHandle};

verus! {

/// A service process leaves, handing back its result in `r0`.
pub const SVC_PROCESS_EXIT: u8 = 0;

/// Map an IO vector of the active call.
pub const SVC_PSA_ACCESS_VEC: u8 = 1;

/// Release an IO vector of the active call.
pub const SVC_PSA_RELEASE_VEC: u8 = 2;

/// Enter a service process in unprivileged mode.
pub const SVC_START_PROCESS: u8 = 3;

/// Make a PSA call.
pub const SVC_PSA_CALL: u8 = 4;

/// Ask for a service's version.
pub const SVC_PSA_VERSION: u8 = 5;

/// Return from a PSA call made from privileged code.
pub const SVC_PSA_CALL_RETURN: u8 = 7;

/// The registers an exception pushes on the stack.
#[derive(Clone, Copy, Debug, PartialEq, Eq, Structural)]
pub struct SvcStackFrame {
    pub r0: usize,
    pub r1: usize,
    pub r2: usize,
    pub r3: usize,
    pub r12: usize,
    pub lr: usize,
    pub pc: usize,
    pub xpsr: usize,
}

/// The service a raw register value names (its low 32 bits are compared).
pub open spec fn spec_service_handle_from_raw(raw: usize) -> Result<ServiceHandle, StatusCode> {
    let v = raw as u32;
    if v == spec_handle_value(ServiceHandle::InternalTrustedStorageService) {
        Ok(ServiceHandle::InternalTrustedStorageService)
    } else if v == spec_handle_value(ServiceHandle::Crypto) {
        Ok(ServiceHandle::Crypto)
    } else if v == spec_handle_value(ServiceHandle::AttestationService) {
        Ok(ServiceHandle::AttestationService)
    } else {
        Err(StatusCode::InvalidHandle)
    }
}

/// Decodes a service handle from a register.
pub fn service_handle_from_raw(raw: usize) -> (r: Result<ServiceHandle, StatusCode>)
    ensures
        r == spec_service_handle_from_raw(raw),
{
    let v = raw as u32;
    if v == ServiceHandle::InternalTrustedStorageService.value() {
        Ok(ServiceHandle::InternalTrustedStorageService)
    } else if v == ServiceHandle::Crypto.value() {
        Ok(ServiceHandle::Crypto)
    } else if v == ServiceHandle::AttestationService.value() {
        Ok(ServiceHandle::AttestationService)
    } else {
        Err(StatusCode::InvalidHandle)
    }
}

/// The register word that carries a status code.
pub open spec fn spec_status_word(status: StatusCode) -> usize {
    (spec_status_value(status) as isize) as usize
}

/// Writes a status code into `r0`.
pub fn set_status(frame: &mut SvcStackFrame, status: StatusCode)
    ensures
        *final(frame) == (SvcStackFrame { r0: spec_status_word(status), ..*old(frame) }),
{
    let v: PsaStatus = status.value();
    frame.r0 = v as usize;
}

/// Reports success in `r0`.
pub fn set_success(frame: &mut SvcStackFrame)
    ensures
        *final(frame) == (SvcStackFrame { r0: spec_status_word(StatusCode::Success), ..*old(frame) }),
{
    set_status(frame, StatusCode::Success);
}

/// Reports an error in `r0` and clears `r1`..`r3`.
pub fn set_error(frame: &mut SvcStackFrame, status: StatusCode)
    ensures
        *final(frame) == (SvcStackFrame { r0: spec_status_word(status), r1: 0, r2: 0, r3: 0, ..*old(frame) }),
{
    frame.r1 = 0;
    frame.r2 = 0;
    frame.r3 = 0;
    set_status(frame, status);
}

/// Reports success and a mapped vector: address in `r1`, length in `r2`.
pub fn set_raw_vec(frame: &mut SvcStackFrame, raw: RawVec)
    ensures
        *final(frame) == (SvcStackFrame {
            r0: spec_status_word(StatusCode::Success),
            r1: raw.base,
            r2: raw.len,
            r3: 0,
            ..*old(frame)
        }),
{
    frame.r1 = raw.base;
    frame.r2 = raw.len;
    frame.r3 = 0;
    set_success(frame);
}

/// Reads a control parameter from a register (its low 32 bits).
pub fn ctrl_param_from_raw(raw: usize) -> (r: CtrlParam)
    ensures
        r.raw == raw as u32,
{
    CtrlParam { raw: raw as u32 }
}

/// What a raw register value reports: success, a known error, or (for any
/// value that is no status code) a communication failure.
pub open spec fn spec_check_svc_result(raw: usize) -> Result<(), StatusCode> {
    match spec_status_from_value((raw as isize) as int) {
        Some(StatusCode::Success) => Ok(()),
        Some(s) => Err(s),
        None => Err(StatusCode::CommunicationFailure),
    }
}

/// Interprets a status register.
pub fn check_svc_result(raw: usize) -> (r: Result<(), StatusCode>)
    ensures
        r == spec_check_svc_result(raw),
{
    let status_val = raw as isize;
    match StatusCode::from_value(status_val) {
        Some(StatusCode::Success) => Ok(()),
        Some(s) => Err(s),
        None => Err(StatusCode::CommunicationFailure),
    }
}

/// The frame after reporting the outcome of a vector step.
pub open spec fn spec_vec_frame(f: SvcStackFrame, r: Result<RawVec, StatusCode>, is_access: bool) -> SvcStackFrame {
    match r {
        Ok(raw) => if is_access {
            SvcStackFrame { r0: spec_status_word(StatusCode::Success), r1: raw.base, r2: raw.len, r3: 0, ..f }
        } else {
            SvcStackFrame { r0: spec_status_word(StatusCode::Success), ..f }
        },
        Err(e) => SvcStackFrame { r0: spec_status_word(e), r1: 0, r2: 0, r3: 0, ..f },
    }
}

/// The vector step an access or release request asks for.
pub open spec fn spec_svc_vec_op(svc_num: u8, f: SvcStackFrame) -> VecOp {
    if svc_num == SVC_PSA_ACCESS_VEC {
        if f.r2 != 0 {
            VecOp::PrepareOutvec(f.r1 as u32)
        } else {
            VecOp::PrepareInvec(f.r1 as u32)
        }
    } else {
        if f.r2 != 0 {
            VecOp::FinishOutvec(f.r1 as u32, f.r3)
        } else {
            VecOp::FinishInvec(f.r1 as u32)
        }
    }
}

/// How a call on the vector descriptors `iv` and `ov` ends: the error of
/// `call_from_slices`, or else an answer the service gives to the message
/// of the connection built from them, running with that connection pushed
/// on the stack.
pub open spec fn spec_sfn_vectors_outcome<P: SfnPlatform>(
    spm: SpmFn<P>,
    handle: ServiceHandle,
    ctrl_param: CtrlParam,
    msg_type: i32,
    caller: CallerAttributes,
    iv: Seq<FFInVec>,
    ov: Seq<FFOutVec>,
    r: Result<(), StatusCode>,
) -> bool {
    match crate::spm_api::connection::spec_call_from_slices_status(&spm, ctrl_param, iv, ov, caller) {
        Err(e) => r == Err::<(), StatusCode>(e),
        Ok(_) => exists|c: crate::spm::connection_stack::Connection|
            crate::spm_api::connection::spec_new_connection(c, handle, msg_type, caller, iv, ov)
                && #[trigger] spm.platform.spec_may_answer(crate::spm::connection_stack::spec_push(spm.stack(), c), c.msg, r),
    }
}

/// How a PSA call from a sandboxed service ends: the control parameter's
/// error, `ProgrammerError` for a missing vector array, or else the outcome
/// on the descriptors the platform reads at `in_vec` and `out_vec` (as many
/// as the control parameter announces; none are read where none are
/// announced).
pub open spec fn spec_sfn_call_outcome<P: SfnPlatform>(
    spm: SpmFn<P>,
    handle: ServiceHandle,
    ctrl_param: CtrlParam,
    in_vec: usize,
    out_vec: usize,
    caller: CallerAttributes,
    r: Result<(), StatusCode>,
) -> bool {
    match crate::spm_api::connection::spec_validate_call_params(ctrl_param.raw) {
        Err(e) => r == Err::<(), StatusCode>(e),
        Ok((t, i, o)) => if crate::types::spec_in_len(ctrl_param.raw) + crate::types::spec_out_len(ctrl_param.raw) != 0
            && ((i > 0 && in_vec == 0) || (o > 0 && out_vec == 0)) {
            r == Err::<(), StatusCode>(StatusCode::ProgrammerError)
        } else {
            exists|iv: Vec<FFInVec>, ov: Vec<FFOutVec>|
                iv.len() == i && ov.len() == o && (i > 0 ==> spm.platform.spec_reads_in_vecs(in_vec, i, iv)) && (o
                    > 0 ==> spm.platform.spec_reads_out_vecs(out_vec, o, ov)) && #[trigger] spec_sfn_vectors_outcome(
                    spm,
                    handle,
                    ctrl_param,
                    t,
                    caller,
                    iv@,
                    ov@,
                    r,
                )
        },
    }
}

/// The frame after a PSA call: success in `r0`, or the error in `r0` with
/// `r1`..`r3` cleared.
pub open spec fn spec_call_frame(f: SvcStackFrame, r: Result<(), StatusCode>) -> SvcStackFrame {
    match r {
        Ok(()) => SvcStackFrame { r0: spec_status_word(StatusCode::Success), ..f },
        Err(e) => SvcStackFrame { r0: spec_status_word(e), r1: 0, r2: 0, r3: 0, ..f },
    }
}

/// Carries out a PSA call that a sandboxed service made: the call is
/// validated, its vector descriptors are read from the caller's memory, and
/// the service runs with the new connection on the stack.
pub fn sfn_call<P: SfnPlatform>(
    spm: &mut SpmFn<P>,
    handle: ServiceHandle,
    ctrl_param: CtrlParam,
    in_vec: usize,
    out_vec: usize,
    caller: CallerAttributes,
) -> (r: Result<(), StatusCode>)
    requires
        old(spm).wf(),
        old(spm).stack().top < MAX_CONNECTIONS,
    ensures
        final(spm).wf(),
        final(spm).stack() == old(spm).stack(),
        final(spm).platform == old(spm).platform,
        spec_sfn_call_outcome(*old(spm), handle, ctrl_param, in_vec, out_vec, caller, r),
        crate::spm_api::connection::spec_validate_call_params(ctrl_param.raw) is Err ==> r
            == Err::<(), StatusCode>(crate::spm_api::connection::spec_validate_call_params(ctrl_param.raw)->Err_0),
        match crate::spm_api::connection::spec_validate_call_params(ctrl_param.raw) {
            Ok((_t, i, o)) => crate::types::spec_in_len(ctrl_param.raw) + crate::types::spec_out_len(ctrl_param.raw)
                != 0 && ((i > 0 && in_vec == 0) || (o > 0 && out_vec == 0)) ==> r == Err::<(), StatusCode>(
                StatusCode::ProgrammerError,
            ),
            Err(_) => true,
        },
{
    let (_msg_type, ivec_num, ovec_num) = validate_call_params(ctrl_param)?;
    validate_vec_pointer_shape(ctrl_param.has_iovec(), ivec_num, ovec_num, in_vec, out_vec)?;
    let in_vecs: Vec<FFInVec> = if ivec_num == 0 {
        Vec::new()
    } else {
        spm.platform.read_in_vecs(in_vec, ivec_num)
    };
    let out_vecs: Vec<FFOutVec> = if ovec_num == 0 {
        Vec::new()
    } else {
        spm.platform.read_out_vecs(out_vec, ovec_num)
    };
    let ghost spm0 = *spm;
    let connection = match call_from_slices(&*spm, handle, ctrl_param, in_vecs.as_slice(), out_vecs.as_slice(), caller) {
        Ok(c) => c,
        Err(e) => {
            proof {
                assert(spec_sfn_vectors_outcome(spm0, handle, ctrl_param, _msg_type, caller, in_vecs@, out_vecs@, Err(e)));
            }
            return Err(e);
        },
    };
    let r = spm.call(connection);
    proof {
        assert(spec_sfn_vectors_outcome(spm0, handle, ctrl_param, _msg_type, caller, in_vecs@, out_vecs@, r));
    }
    r
}

/// The dispatcher's effect on the frame, for the requests whose outcome the
/// partition manager alone decides.
pub open spec fn spec_svc_frame<P: SfnPlatform>(svc_num: u8, f: SvcStackFrame, spm: SpmFn<P>) -> SvcStackFrame {
    let h = spec_service_handle_from_raw(f.r0);
    if h is Err {
        SvcStackFrame { r0: spec_status_word(h->Err_0), r1: 0, r2: 0, r3: 0, ..f }
    } else if svc_num == SVC_PSA_ACCESS_VEC || svc_num == SVC_PSA_RELEASE_VEC {
        spec_vec_frame(
            f,
            spec_validated_result(spm.stack(), h->Ok_0, spec_svc_vec_op(svc_num, f)),
            svc_num == SVC_PSA_ACCESS_VEC,
        )
    } else if svc_num == SVC_PSA_VERSION {
        SvcStackFrame {
            r0: match spm.platform.spec_version(h->Ok_0) {
                Some(v) => v as usize,
                None => 0,
            },
            ..f
        }
    } else {
        f
    }
}

/// Handles the supervisor calls of the PSA interface. Returns whether the
/// request was one of them. The handle in `r0` is checked first; then
/// access / release requests map or release a vector of the innermost call,
/// a PSA call runs the addressed service, and a version request reports the
/// service's version in `r0`.
pub fn handle_svc_with_spm<P: SfnPlatform>(svc_num: u8, frame: &mut SvcStackFrame, spm: &mut SpmFn<P>) -> (handled: bool)
    requires
        old(spm).wf(),
        svc_num == SVC_PSA_CALL ==> old(spm).stack().top < MAX_CONNECTIONS,
    ensures
        final(spm).wf(),
        final(spm).platform == old(spm).platform,
        handled == (spec_service_handle_from_raw(old(frame).r0) is Err || svc_num == SVC_PSA_ACCESS_VEC
            || svc_num == SVC_PSA_RELEASE_VEC || svc_num == SVC_PSA_CALL || svc_num == SVC_PSA_VERSION),
        svc_num != SVC_PSA_CALL || spec_service_handle_from_raw(old(frame).r0) is Err ==> *final(frame)
            == spec_svc_frame(svc_num, *old(frame), *old(spm)),
        spec_service_handle_from_raw(old(frame).r0) is Ok && (svc_num == SVC_PSA_ACCESS_VEC || svc_num
            == SVC_PSA_RELEASE_VEC) ==> spec_validated_post(
            old(spm).stack(),
            final(spm).stack(),
            spec_service_handle_from_raw(old(frame).r0)->Ok_0,
            spec_svc_vec_op(svc_num, *old(frame)),
        ),
        svc_num != SVC_PSA_ACCESS_VEC && svc_num != SVC_PSA_RELEASE_VEC ==> final(spm).stack() == old(spm).stack(),
        spec_service_handle_from_raw(old(frame).r0) is Ok && svc_num == SVC_PSA_CALL ==> (exists|
            res: Result<(), StatusCode>,
        |
            #[trigger] spec_sfn_call_outcome(
                *old(spm),
                spec_service_handle_from_raw(old(frame).r0)->Ok_0,
                (CtrlParam { raw: old(frame).r1 as u32 }),
                old(frame).r2,
                old(frame).r3,
                (CallerAttributes { ns: false, privileged: false }),
                res,
            ) && *final(frame) == spec_call_frame(*old(frame), res)),
        spec_service_handle_from_raw(old(frame).r0) is Ok && svc_num == SVC_PSA_CALL
            && crate::spm_api::connection::spec_validate_call_params((old(frame).r1 as u32)) is Err ==> *final(frame)
            == (SvcStackFrame {
            r0: spec_status_word(crate::spm_api::connection::spec_validate_call_params((old(frame).r1 as u32))->Err_0),
            r1: 0,
            r2: 0,
            r3: 0,
            ..*old(frame)
        }),
{
    let handle = match service_handle_from_raw(frame.r0) {
        Ok(h) => h,
        Err(status) => {
            set_error(frame, status);
            return true;
        },
    };
    if svc_num == SVC_PSA_ACCESS_VEC {
        let is_outvec = frame.r2 != 0;
        let result = if is_outvec {
            prepare_outvec_raw(&mut spm.connections, handle, frame.r1 as u32)
        } else {
            prepare_invec_raw(&mut spm.connections, handle, frame.r1 as u32)
        };
        match result {
            Ok(raw) => set_raw_vec(frame, raw),
            Err(status) => set_error(frame, status),
        }
        proof {
            lemma_validated_keeps_unused_empty(old(spm).stack(), spm.stack(), handle, spec_svc_vec_op(svc_num, *old(frame)));
        }
    } else if svc_num == SVC_PSA_RELEASE_VEC {
        let is_outvec = frame.r2 != 0;
        let result = if is_outvec {
            finish_outvec_raw(&mut spm.connections, handle, frame.r1 as u32, frame.r3)
        } else {
            finish_invec_raw(&mut spm.connections, handle, frame.r1 as u32)
        };
        match result {
            Ok(()) => set_success(frame),
            Err(status) => set_error(frame, status),
        }
        proof {
            lemma_validated_keeps_unused_empty(old(spm).stack(), spm.stack(), handle, spec_svc_vec_op(svc_num, *old(frame)));
        }
    } else if svc_num == SVC_PSA_CALL {
        let ctrl = ctrl_param_from_raw(frame.r1);
        let result = sfn_call(spm, handle, ctrl, frame.r2, frame.r3, CallerAttributes::secure_unprivileged());
        match result {
            Ok(()) => set_success(frame),
            Err(status) => set_error(frame, status),
        }
    } else if svc_num == SVC_PSA_VERSION {
        frame.r0 = match spm.version(handle) {
            Some(v) => v as usize,
            None => 0,
        };
    } else {
        return false;
    }
    true
}

/// Handles a PSA supervisor call with the partition manager in place, if
/// one has been set up. Without one, vector and call requests are answered
/// with `CommunicationFailure` and other requests are not handled.
pub fn handle_svc<P: SfnPlatform>(svc_num: u8, frame: &mut SvcStackFrame, spm: Option<&mut SpmFn<P>>) -> (handled: bool)
    requires
        spm matches Some(s) ==> s.wf() && (svc_num == SVC_PSA_CALL ==> s.stack().top < MAX_CONNECTIONS),
    ensures
        spm is None ==> handled == (svc_num == SVC_PSA_ACCESS_VEC || svc_num == SVC_PSA_RELEASE_VEC || svc_num
            == SVC_PSA_CALL),
        spm is None && handled ==> *final(frame) == (SvcStackFrame {
            r0: spec_status_word(StatusCode::CommunicationFailure),
            r1: 0,
            r2: 0,
            r3: 0,
            ..*old(frame)
        }),
        spm is None && !handled ==> *final(frame) == *old(frame),
        spm matches Some(s) ==> handled == (spec_service_handle_from_raw(old(frame).r0) is Err || svc_num
            == SVC_PSA_ACCESS_VEC || svc_num == SVC_PSA_RELEASE_VEC || svc_num == SVC_PSA_CALL || svc_num
            == SVC_PSA_VERSION),
        match spm {
            Some(s) => svc_num != SVC_PSA_CALL || spec_service_handle_from_raw(old(frame).r0) is Err ==> *final(frame)
                == spec_svc_frame(svc_num, *old(frame), *s),
            None => true,
        },
        match spm {
            Some(s) => spec_service_handle_from_raw(old(frame).r0) is Ok && svc_num == SVC_PSA_CALL ==> (exists|
                res: Result<(), StatusCode>,
            |
                #[trigger] spec_sfn_call_outcome(
                    *s,
                    spec_service_handle_from_raw(old(frame).r0)->Ok_0,
                    (CtrlParam { raw: old(frame).r1 as u32 }),
                    old(frame).r2,
                    old(frame).r3,
                    (CallerAttributes { ns: false, privileged: false }),
                    res,
                ) && *final(frame) == spec_call_frame(*old(frame), res)),
            None => true,
        },
{
    match spm {
        Some(s) => handle_svc_with_spm(svc_num, frame, s),
        None => {
            if svc_num == SVC_PSA_ACCESS_VEC || svc_num == SVC_PSA_RELEASE_VEC || svc_num == SVC_PSA_CALL {
                set_error(frame, StatusCode::CommunicationFailure);
                true
            } else {
                false
            }
        },
    }
}

/// What handling a supervisor call leaves to the IPC runtime.
#[derive(Clone, Copy, Debug, PartialEq, Eq, Structural)]
pub enum IpcSvcAction {
    /// The request is answered in the frame; the process at the index, if
    /// any, needs its MPU regions worked out again.
    Answered(Option<usize>),
    /// A PSA call to carry out and answer: the service, the control
    /// parameter and the addresses of the two vector arrays.
    Call(ServiceHandle, CtrlParam, usize, usize),
    /// Not a PSA request.
    NotHandled,
}

/// Handles the supervisor calls of the PSA interface for the IPC manager.
/// The handle in `r0` is checked first; access and release requests map or
/// release a vector of the active call and mark it in the call's record, a
/// version request reports the service's version in `r0`, and a PSA call is
/// handed back to the runtime to run.
pub fn handle_svc_with_ipc<P: IpcPlatform, const N: usize, Proc: IpcProcess>(
    svc_num: u8,
    frame: &mut SvcStackFrame,
    spm: &mut SpmIpc<P, N, Proc>,
) -> (r: IpcSvcAction)
    requires
        old(spm).wf(),
    ensures
        final(spm).wf(),
        final(spm).procs() == old(spm).procs(),
        final(spm).started() == old(spm).started(),
        final(spm).stack().top == old(spm).stack().top,
        spec_service_handle_from_raw(old(frame).r0) is Err ==> r == IpcSvcAction::Answered(None) && *final(frame)
            == (SvcStackFrame {
            r0: spec_status_word(spec_service_handle_from_raw(old(frame).r0)->Err_0),
            r1: 0,
            r2: 0,
            r3: 0,
            ..*old(frame)
        }) && final(spm).stack() == old(spm).stack(),
        match spec_service_handle_from_raw(old(frame).r0) {
            Ok(h) => {
                &&& (svc_num == SVC_PSA_ACCESS_VEC || svc_num == SVC_PSA_RELEASE_VEC) ==> r == IpcSvcAction::Answered(
                    match spec_validated_result(old(spm).stack(), h, spec_svc_vec_op(svc_num, *old(frame))) {
                        Ok(_) => spec_first_with_handle(old(spm).procs(), h, 0),
                        Err(_) => None,
                    },
                ) && *final(frame) == spec_vec_frame(
                    *old(frame),
                    spec_validated_result(old(spm).stack(), h, spec_svc_vec_op(svc_num, *old(frame))),
                    svc_num == SVC_PSA_ACCESS_VEC,
                )
                &&& (svc_num == SVC_PSA_ACCESS_VEC || svc_num == SVC_PSA_RELEASE_VEC) && (spec_validated_result(
                    old(spm).stack(),
                    h,
                    spec_svc_vec_op(svc_num, *old(frame)),
                ) is Err || spec_first_with_handle(old(spm).procs(), h, 0) is None) ==> spec_validated_post(
                    old(spm).stack(),
                    final(spm).stack(),
                    h,
                    spec_svc_vec_op(svc_num, *old(frame)),
                )
                &&& (svc_num == SVC_PSA_ACCESS_VEC || svc_num == SVC_PSA_RELEASE_VEC) && spec_validated_result(
                    old(spm).stack(),
                    h,
                    spec_svc_vec_op(svc_num, *old(frame)),
                ) is Ok && spec_first_with_handle(old(spm).procs(), h, 0) is Some ==> spec_top_replaced(
                    old(spm).stack(),
                    final(spm).stack(),
                    spec_set_mapping(
                        spec_validated_conn(old(spm).stack(), h, spec_svc_vec_op(svc_num, *old(frame))),
                        old(frame).r2 != 0,
                        old(frame).r1 as u32 as int,
                        svc_num == SVC_PSA_ACCESS_VEC,
                    ),
                )
                &&& svc_num == SVC_PSA_VERSION ==> r == IpcSvcAction::Answered(None) && *final(frame) == (
                SvcStackFrame {
                    r0: match spec_first_with_handle(old(spm).procs(), h, 0) {
                        Some(i) => old(spm).procs()[i as int].spec_version() as usize,
                        None => 0,
                    },
                    ..*old(frame)
                }) && final(spm).stack() == old(spm).stack()
                &&& svc_num == SVC_PSA_CALL ==> r == IpcSvcAction::Call(
                    h,
                    CtrlParam { raw: old(frame).r1 as u32 },
                    old(frame).r2,
                    old(frame).r3,
                ) && *final(frame) == *old(frame) && final(spm).stack() == old(spm).stack()
                &&& svc_num != SVC_PSA_ACCESS_VEC && svc_num != SVC_PSA_RELEASE_VEC && svc_num != SVC_PSA_VERSION
                    && svc_num != SVC_PSA_CALL ==> r == IpcSvcAction::NotHandled && *final(frame) == *old(frame)
                    && final(spm).stack() == old(spm).stack()
            },
            Err(_) => true,
        },
{
    let handle = match service_handle_from_raw(frame.r0) {
        Ok(h) => h,
        Err(status) => {
            set_error(frame, status);
            return IpcSvcAction::Answered(None);
        },
    };
    if svc_num == SVC_PSA_ACCESS_VEC || svc_num == SVC_PSA_RELEASE_VEC {
        let is_outvec = frame.r2 != 0;
        let idx = frame.r1 as u32;
        let op = if svc_num == SVC_PSA_ACCESS_VEC {
            if is_outvec {
                VecOp::PrepareOutvec(idx)
            } else {
                VecOp::PrepareInvec(idx)
            }
        } else {
            if is_outvec {
                VecOp::FinishOutvec(idx, frame.r3)
            } else {
                VecOp::FinishInvec(idx)
            }
        };
        assert(op == spec_svc_vec_op(svc_num, *old(frame)));
        let ghost before = spm.stack();
        match spm.vec_step(handle, op) {
            Ok(raw) => {
                let ghost mid = spm.stack();
                proof {
                    assert(spec_validated_conn(before, handle, op).handle == handle);
                    assert(mid.slots[mid.top - 1]->0.msg.handle == handle);
                }
                let mapped = svc_num == SVC_PSA_ACCESS_VEC;
                let owner = spm.update_vec_mapping(is_outvec, idx, mapped);
                proof {
                    let fin = spm.stack();
                    if owner is Some {
                        assert forall|j: int| 0 <= j < before.slots.len() && j != before.top - 1 implies fin.slots[j]
                            == before.slots[j] by {
                            assert(fin.slots[j] == mid.slots[j]);
                        }
                    }
                }
                if mapped {
                    set_raw_vec(frame, raw);
                } else {
                    set_success(frame);
                }
                IpcSvcAction::Answered(owner)
            },
            Err(status) => {
                set_error(frame, status);
                IpcSvcAction::Answered(None)
            },
        }
    } else if svc_num == SVC_PSA_VERSION {
        frame.r0 = match spm.version(handle) {
            Some(v) => v as usize,
            None => 0,
        };
        IpcSvcAction::Answered(None)
    } else if svc_num == SVC_PSA_CALL {
        IpcSvcAction::Call(handle, ctrl_param_from_raw(frame.r1), frame.r2, frame.r3)
    } else {
        IpcSvcAction::NotHandled
    }
}

/// Releasing an output vector commits exactly the length the service puts
/// in `r3`: when the release succeeds, the innermost call's record reports
/// that many bytes written and as the vector's size, and the vector is
/// released; the depth of the stack and the other calls are unchanged.
pub proof fn law_release_commits_written_length(
    old_m: StackModel,
    new_m: StackModel,
    h: ServiceHandle,
    f: SvcStackFrame,
)
    requires
        f.r2 != 0,
        spec_validated_post(old_m, new_m, h, spec_svc_vec_op(SVC_PSA_RELEASE_VEC, f)),
        spec_validated_result(old_m, h, spec_svc_vec_op(SVC_PSA_RELEASE_VEC, f)) is Ok,
    ensures
        old_m.top > 0,
        new_m.top == old_m.top,
        forall|j: int| 0 <= j < old_m.slots.len() && j != old_m.top - 1 ==> new_m.slots[j] == old_m.slots[j],
        new_m.slots[old_m.top - 1] matches Some(c) && (f.r1 as u32) < 4 && c.outvec_written@[(f.r1 as u32) as int]
            == f.r3 && c.msg.out_size@[(f.r1 as u32) as int].0 == f.r3 && c.outvec_unmapped@[(f.r1 as u32) as int],
{
}

/// A validated vector step keeps the unused slots of a stack empty.
pub proof fn lemma_validated_keeps_unused_empty(old_m: StackModel, new_m: StackModel, h: ServiceHandle, op: VecOp)
    requires
        spec_unused_slots_empty(old_m),
        old_m.top <= old_m.slots.len(),
        spec_validated_post(old_m, new_m, h, op),
    ensures
        spec_unused_slots_empty(new_m),
{
    if crate::spm::connection_stack::spec_take_result(old_m) is Ok {
        assert forall|i: int| new_m.top <= i < new_m.slots.len() implies #[trigger] new_m.slots[i] is None by {
            assert(new_m.slots[i] == old_m.slots[i]);
        }
    }
}

} // verus!
