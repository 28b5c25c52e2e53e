use spe::spm::connection_stack::{Connection, ConnectionArray, StackModel, PSA_MAX_IOVEC};
use spe::spm::spm_fn::{SfnPlatform, SpmFn};
use spe::spm_api::svc::{
    check_svc_result, handle_svc, handle_svc_with_spm, service_handle_from_raw, set_error,
    set_raw_vec, SvcStackFrame, SVC_PSA_ACCESS_VEC, SVC_PSA_CALL, SVC_PSA_RELEASE_VEC,
    SVC_PSA_VERSION,
};
use spe::spm_api::{CallerAttributes, MaybeUsize, PsaMsg, RawVec};
use spe::status::{PsaStatus, StatusCode};
use spe::types::{CtrlParam, FFInVec, FFOutVec, ServiceHandle};

struct MockPlatform {
    version_val: Option<u32>,
}

impl SfnPlatform for MockPlatform {
    fn spec_permits(&self, _base: usize, _len: usize, _is_write: bool, _caller: CallerAttributes) -> bool {
        true
    }

    fn spec_version(&self, _handle: ServiceHandle) -> Option<u32> {
        self.version_val
    }

    fn spec_reads_in_vecs(&self, _addr: usize, n: usize, v: Vec<FFInVec>) -> bool {
        v.len() == n && v.iter().all(|d| d.base == 0 && d.len == 0)
    }

    fn spec_reads_out_vecs(&self, _addr: usize, n: usize, v: Vec<FFOutVec>) -> bool {
        v.len() == n && v.iter().all(|d| d.base == 0 && d.len == 0)
    }

    fn spec_may_answer(&self, _stack: StackModel, _msg: PsaMsg, r: Result<(), StatusCode>) -> bool {
        r == Ok(())
    }

    fn call(&self, _connections: &mut ConnectionArray, _msg: PsaMsg) -> Result<(), StatusCode> {
        Ok(())
    }

    fn has_permission_on_memory(
        &self,
        _base: usize,
        _len: usize,
        _is_write: bool,
        _caller: CallerAttributes,
    ) -> bool {
        true
    }

    fn version(&self, _handle: ServiceHandle) -> Option<u32> {
        self.version_val
    }

    fn read_in_vecs(&self, _addr: usize, n: usize) -> Vec<FFInVec> {
        vec![FFInVec { base: 0, len: 0 }; n]
    }

    fn read_out_vecs(&self, _addr: usize, n: usize) -> Vec<FFOutVec> {
        vec![FFOutVec { base: 0, len: 0 }; n]
    }
}

fn mock_spm() -> SpmFn<MockPlatform> {
    SpmFn::new(MockPlatform {
        version_val: Some(1),
    })
}

fn make_frame(r0: usize, r1: usize, r2: usize, r3: usize) -> SvcStackFrame {
    SvcStackFrame {
        r0,
        r1,
        r2,
        r3,
        r12: 0,
        lr: 0,
        pc: 0,
        xpsr: 0,
    }
}

fn status_word(status: StatusCode) -> usize {
    status.value() as usize
}

#[test]
fn test_check_svc_result_success() {
    assert_eq!(check_svc_result(0), Ok(()));
}

#[test]
fn test_check_svc_result_known_error() {
    let raw = (StatusCode::ProgrammerError.value() as PsaStatus) as usize;
    assert_eq!(check_svc_result(raw), Err(StatusCode::ProgrammerError));
}

#[test]
fn test_check_svc_result_unknown_code() {
    let raw = 0x7FFF_ABCD_usize;
    assert_eq!(check_svc_result(raw), Err(StatusCode::CommunicationFailure));
}

#[test]
fn test_service_handle_from_raw_crypto() {
    let raw = ServiceHandle::Crypto.value() as usize;
    assert_eq!(service_handle_from_raw(raw), Ok(ServiceHandle::Crypto));
}

#[test]
fn test_service_handle_from_raw_its() {
    let raw = ServiceHandle::InternalTrustedStorageService.value() as usize;
    assert_eq!(
        service_handle_from_raw(raw),
        Ok(ServiceHandle::InternalTrustedStorageService)
    );
}

#[test]
fn test_service_handle_from_raw_attestation() {
    let raw = ServiceHandle::AttestationService.value() as usize;
    assert_eq!(
        service_handle_from_raw(raw),
        Ok(ServiceHandle::AttestationService)
    );
}

#[test]
fn test_service_handle_from_raw_invalid() {
    assert_eq!(
        service_handle_from_raw(0xDEAD_BEEF),
        Err(StatusCode::InvalidHandle)
    );
}

#[test]
fn test_handle_svc_invalid_handle_returns_error() {
    let mut spm = mock_spm();
    let mut frame = make_frame(0xDEAD_BEEF, 0, 0, 0);

    let handled = handle_svc_with_spm(SVC_PSA_VERSION, &mut frame, &mut spm);

    assert!(handled);
    let status = frame.r0 as i32;
    assert_eq!(status, StatusCode::InvalidHandle.value() as i32);
}

#[test]
fn test_handle_svc_version_returns_version() {
    let mut spm = mock_spm();
    let mut frame = make_frame(ServiceHandle::Crypto.value() as usize, 0, 0, 0);

    let handled = handle_svc_with_spm(SVC_PSA_VERSION, &mut frame, &mut spm);

    assert!(handled);
    assert_eq!(frame.r0, 1);
}

#[test]
fn test_handle_svc_unknown_svc_returns_false() {
    let mut spm = mock_spm();
    let mut frame = make_frame(ServiceHandle::Crypto.value() as usize, 0, 0, 0);

    let handled = handle_svc_with_spm(0xFF, &mut frame, &mut spm);

    assert!(!handled);
}

#[test]
fn test_handle_svc_call_success() {
    let mut spm = mock_spm();
    let ctrl = CtrlParam::new(1, 0, false, 0, false);
    let ctrl_raw = ctrl.raw as usize;
    let mut frame = make_frame(ServiceHandle::Crypto.value() as usize, ctrl_raw, 0, 0);

    let handled = handle_svc_with_spm(SVC_PSA_CALL, &mut frame, &mut spm);

    assert!(handled);
    assert_eq!(frame.r0 as i32, 0);
}

#[test]
fn test_set_error_clears_registers() {
    let mut frame = make_frame(0, 0x11, 0x22, 0x33);
    set_error(&mut frame, StatusCode::ProgrammerError);
    assert_eq!(frame.r1, 0);
    assert_eq!(frame.r2, 0);
    assert_eq!(frame.r3, 0);
    assert_eq!(frame.r0 as i32, StatusCode::ProgrammerError.value() as i32);
}

#[test]
fn test_set_raw_vec_populates_frame() {
    let mut buf = [0u8; 16];
    let raw = RawVec {
        base: buf.as_mut_ptr() as usize,
        len: 16,
    };
    let mut frame = make_frame(0xFF, 0xFF, 0xFF, 0xFF);
    set_raw_vec(&mut frame, raw);

    assert_eq!(frame.r0 as i32, 0);
    assert_eq!(frame.r1, buf.as_ptr() as usize);
    assert_eq!(frame.r2, 16);
    assert_eq!(frame.r3, 0);
}

fn connection_with_invec(handle: ServiceHandle, base: usize, len: usize) -> Connection {
    let mut msg = PsaMsg::new(handle, 1, CallerAttributes::secure_unprivileged());
    msg.in_size[0] = MaybeUsize::some(len);
    Connection {
        msg,
        invec_base: [base, 0, 0, 0],
        invec_accessed: [0; PSA_MAX_IOVEC],
        invec_mapped: [false; PSA_MAX_IOVEC],
        invec_unmapped: [false; PSA_MAX_IOVEC],
        outvec_base: [0; PSA_MAX_IOVEC],
        outvec_written: [0; PSA_MAX_IOVEC],
        outvec_mapped: [false; PSA_MAX_IOVEC],
        outvec_unmapped: [false; PSA_MAX_IOVEC],
    }
}

#[test]
fn handle_svc_access_then_release_input_vector() {
    let mut spm = mock_spm();
    let conn = connection_with_invec(ServiceHandle::Crypto, 0x2000, 12);
    assert_eq!(spm.add_connection(conn), Ok(()));

    let handle = ServiceHandle::Crypto.value() as usize;
    let mut frame = make_frame(handle, 0, 0, 0);
    assert!(handle_svc_with_spm(SVC_PSA_ACCESS_VEC, &mut frame, &mut spm));
    assert_eq!(frame.r0, 0);
    assert_eq!(frame.r1, 0x2000);
    assert_eq!(frame.r2, 12);

    // A second access to the same vector is refused.
    let mut again = make_frame(handle, 0, 0, 0);
    assert!(handle_svc_with_spm(SVC_PSA_ACCESS_VEC, &mut again, &mut spm));
    assert_eq!(again.r0, status_word(StatusCode::ProgrammerError));

    let mut release = make_frame(handle, 0, 0, 0);
    assert!(handle_svc_with_spm(SVC_PSA_RELEASE_VEC, &mut release, &mut spm));
    assert_eq!(release.r0, 0);

    // Releasing twice is refused.
    let mut twice = make_frame(handle, 0, 0, 0);
    assert!(handle_svc_with_spm(SVC_PSA_RELEASE_VEC, &mut twice, &mut spm));
    assert_eq!(twice.r0, status_word(StatusCode::ProgrammerError));
}

#[test]
fn handle_svc_without_manager_reports_communication_failure() {
    let mut frame = make_frame(ServiceHandle::Crypto.value() as usize, 5, 6, 7);
    assert!(handle_svc::<MockPlatform>(SVC_PSA_CALL, &mut frame, None));
    assert_eq!(frame.r0, status_word(StatusCode::CommunicationFailure));
    assert_eq!((frame.r1, frame.r2, frame.r3), (0, 0, 0));

    let mut other = make_frame(1, 2, 3, 4);
    assert!(!handle_svc::<MockPlatform>(SVC_PSA_VERSION, &mut other, None));
    assert_eq!(other.r0, 1);
}

#[test]
fn handle_svc_with_manager_dispatches() {
    let mut spm = mock_spm();
    let mut frame = make_frame(ServiceHandle::Crypto.value() as usize, 0, 0, 0);
    assert!(handle_svc(SVC_PSA_VERSION, &mut frame, Some(&mut spm)));
    assert_eq!(frame.r0, 1);
}
