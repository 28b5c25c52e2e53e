use spe::spm_api::{CallerAttributes, MaybeUsize};
use spe::status::{into_psa_status, StatusCode};
use spe::types::{CtrlParam, ServiceHandle};

#[test]
fn status_values() {
    assert_eq!(StatusCode::Success.value(), 0);
    assert_eq!(StatusCode::ProgrammerError.value(), -129);
    assert_eq!(StatusCode::InvalidHandle.value(), -136);
    assert_eq!(StatusCode::BufferTooSmall.value(), -138);
    assert_eq!(StatusCode::CommunicationFailure.value(), -145);
}

#[test]
fn status_value_round_trip() {
    for s in [
        StatusCode::Success,
        StatusCode::GenericError,
        StatusCode::NotSupported,
        StatusCode::InvalidArgument,
        StatusCode::DataInvalid,
    ] {
        assert_eq!(StatusCode::from_value(s.value()), Some(s));
    }
    assert_eq!(StatusCode::from_value(-1), None);
    assert_eq!(StatusCode::from_value(1), None);
}

#[test]
fn into_psa_status_of_results() {
    assert_eq!(into_psa_status(Ok(())), 0);
    assert_eq!(into_psa_status(Err(StatusCode::NotPermitted)), StatusCode::NotPermitted.value());
}

#[test]
fn ctrl_param_packs_and_unpacks() {
    let p = CtrlParam::new(7, 2, true, 1, false);
    assert_eq!(p.unpack_type(), 7);
    assert_eq!(p.in_len(), 2);
    assert_eq!(p.out_len(), 1);
    assert!(p.has_iovec());
    assert_eq!(p.raw, (7 << 16) | (2 << 8) | (1 << 11) | 1);
    let q = CtrlParam::new(0xFFFE, 0, false, 0, true);
    assert_eq!(q.unpack_type(), -2);
    assert!(!q.has_iovec());
}

#[test]
fn service_handle_values() {
    assert_eq!(ServiceHandle::Crypto.value(), 0x4000_0100);
    assert_eq!(ServiceHandle::InternalTrustedStorageService.value(), 0x4000_0102);
    assert_eq!(ServiceHandle::AttestationService.value(), 0x4000_0103);
}

#[test]
fn maybe_usize_round_trip() {
    assert_eq!(MaybeUsize::some(5).as_option(), Some(5));
    assert_eq!(MaybeUsize::none().as_option(), None);
    assert_eq!(MaybeUsize::some(usize::MAX).as_option(), None);
    assert_eq!(MaybeUsize::from_option(Some(9)).unwrap(), 9);
    assert_eq!(MaybeUsize::none().unwrap_or(3), 3);
    assert!(MaybeUsize::some(0).is_some());
    assert!(MaybeUsize::none().is_none());
}

#[test]
fn caller_attributes() {
    let c = CallerAttributes::ns_unprivileged();
    assert!(c.ns && !c.privileged);
    let s = CallerAttributes::secure_privileged();
    assert!(!s.ns && s.privileged);
}
