use spe::spm::connection_stack::{Connection, PSA_MAX_IOVEC};
use spe::spm_api::connection::{
    commit_outvec_write, mark_invec_unmapped, prepare_invec, prepare_outvec, validate_call_params,
    validate_invec_payload_nonoverlap, validate_pointer_range, validate_vec_pointer_shape,
};
use spe::spm_api::{CallerAttributes, MaybeUsize, PsaMsg};
use spe::status::StatusCode;
use spe::types::{CtrlParam, FFInVec, FFOutVec, ServiceHandle};

#[test]
fn test_validate_call_params_valid() {
    let param = CtrlParam::new(1, 2, false, 1, false);
    let res = validate_call_params(param);
    assert_eq!(res, Ok((1, 2, 1)));
}

#[test]
fn test_validate_call_params_max_iovec_exceeded() {
    let param = CtrlParam::new(1, 3, false, 2, false); // 3+2 = 5 > 4 (PSA_MAX_IOVEC)
    let res = validate_call_params(param);
    assert_eq!(res, Err(StatusCode::ProgrammerError));
}

#[test]
fn test_validate_vec_pointer_shape() {
    let invecs = [FFInVec { base: 0, len: 0 }];
    let outvecs = [FFOutVec { base: 0, len: 0 }];
    let invec_addr = invecs.as_ptr() as usize;
    let outvec_addr = outvecs.as_ptr() as usize;

    let res = validate_vec_pointer_shape(true, 1, 0, 0, outvec_addr);
    assert_eq!(res, Err(StatusCode::ProgrammerError));

    let res = validate_vec_pointer_shape(true, 0, 1, invec_addr, 0);
    assert_eq!(res, Err(StatusCode::ProgrammerError));

    let res = validate_vec_pointer_shape(true, 1, 1, invec_addr, outvec_addr);
    assert_eq!(res, Ok(()));

    let res = validate_vec_pointer_shape(false, 1, 1, 0, 0);
    assert_eq!(res, Ok(()));
}

#[test]
fn test_validate_invec_payload_nonoverlap() {
    let buf = [0u8; 100];
    let ptr = buf.as_ptr() as usize;

    let in_vecs_ok = [
        FFInVec { base: ptr, len: 10 },
        FFInVec {
            base: ptr + 10,
            len: 10,
        },
    ];
    assert_eq!(validate_invec_payload_nonoverlap(&in_vecs_ok), Ok(()));

    let in_vecs_overlap = [
        FFInVec { base: ptr, len: 15 },
        FFInVec {
            base: ptr + 10,
            len: 10,
        },
    ];
    assert_eq!(
        validate_invec_payload_nonoverlap(&in_vecs_overlap),
        Err(StatusCode::ProgrammerError)
    );
}

#[test]
fn test_validate_invec_payload_single_vec_always_ok() {
    let buf = [0u8; 16];
    let in_vecs = [FFInVec {
        base: buf.as_ptr() as usize,
        len: 16,
    }];
    assert_eq!(validate_invec_payload_nonoverlap(&in_vecs), Ok(()));
}

#[test]
fn test_validate_invec_payload_empty_always_ok() {
    let in_vecs: &[FFInVec] = &[];
    assert_eq!(validate_invec_payload_nonoverlap(in_vecs), Ok(()));
}

#[test]
fn test_validate_invec_adjacent_regions_ok() {
    let buf = [0u8; 30];
    let base = buf.as_ptr() as usize;
    let in_vecs = [
        FFInVec { base, len: 10 },
        FFInVec {
            base: base + 10,
            len: 10,
        },
        FFInVec {
            base: base + 20,
            len: 10,
        },
    ];
    assert_eq!(validate_invec_payload_nonoverlap(&in_vecs), Ok(()));
}

#[test]
fn test_validate_pointer_range_zero_len() {
    assert_eq!(validate_pointer_range(0, 0), Ok(()));
}

#[test]
fn test_validate_pointer_range_null_nonzero_len() {
    assert_eq!(validate_pointer_range(0, 10), Err(StatusCode::ProgrammerError));
}

#[test]
fn test_validate_pointer_range_overflow() {
    let base = usize::MAX;
    assert_eq!(validate_pointer_range(base, 1), Err(StatusCode::ProgrammerError));
}

#[test]
fn test_validate_pointer_range_valid() {
    let buf = [0u8; 32];
    assert_eq!(validate_pointer_range(buf.as_ptr() as usize, 32), Ok(()));
}

#[test]
fn test_validate_call_params_negative_msg_type() {
    // 0xFFFF as u16 is read as i16(-1), a negative message type.
    let param = CtrlParam::new(0xFFFF, 0, false, 0, false);
    assert_eq!(validate_call_params(param), Err(StatusCode::ProgrammerError));
}

#[test]
fn test_validate_call_params_zero_msg_type_no_iovec() {
    let param = CtrlParam::new(0, 0, false, 0, false);
    assert_eq!(validate_call_params(param), Ok((0, 0, 0)));
}

#[test]
fn test_validate_call_params_boundary_max_iovec() {
    // Exactly at PSA_MAX_IOVEC (4): 2 in + 2 out = 4
    let param = CtrlParam::new(1, 2, false, 2, false);
    assert_eq!(validate_call_params(param), Ok((1, 2, 2)));
}

fn make_test_connection(in_len: usize, out_len: usize) -> Connection {
    let msg = PsaMsg::new(ServiceHandle::Crypto, 1, CallerAttributes::ns_unprivileged());
    let mut conn = Connection {
        msg,
        invec_base: [0; PSA_MAX_IOVEC],
        invec_accessed: [0; PSA_MAX_IOVEC],
        invec_mapped: [false; PSA_MAX_IOVEC],
        invec_unmapped: [false; PSA_MAX_IOVEC],
        outvec_base: [0; PSA_MAX_IOVEC],
        outvec_written: [0; PSA_MAX_IOVEC],
        outvec_mapped: [false; PSA_MAX_IOVEC],
        outvec_unmapped: [false; PSA_MAX_IOVEC],
    };
    // Non-zero sentinel addresses (never dereferenced).
    conn.invec_base[0] = 0x1000;
    conn.msg.in_size[0] = MaybeUsize::some(in_len);
    conn.outvec_base[0] = 0x2000;
    conn.msg.out_size[0] = MaybeUsize::some(out_len);
    conn
}

#[test]
fn test_prepare_invec_valid() {
    let mut conn = make_test_connection(16, 0);
    let result = prepare_invec(&mut conn, 0);
    assert!(result.is_ok());
    let (index, len, base) = result.unwrap();
    assert_eq!(index, 0);
    assert_eq!(len, 16);
    assert!(base != 0);
    assert!(conn.invec_mapped[0]);
}

#[test]
fn test_prepare_invec_out_of_bounds() {
    let mut conn = make_test_connection(16, 0);
    assert_eq!(
        prepare_invec(&mut conn, PSA_MAX_IOVEC as u32),
        Err(StatusCode::ProgrammerError)
    );
}

#[test]
fn test_prepare_invec_already_mapped() {
    let mut conn = make_test_connection(16, 0);
    conn.invec_mapped[0] = true;
    assert_eq!(prepare_invec(&mut conn, 0), Err(StatusCode::ProgrammerError));
}

#[test]
fn test_prepare_invec_already_accessed() {
    let mut conn = make_test_connection(16, 0);
    conn.invec_accessed[0] = 1;
    assert_eq!(prepare_invec(&mut conn, 0), Err(StatusCode::ProgrammerError));
}

#[test]
fn test_prepare_outvec_valid() {
    let mut conn = make_test_connection(0, 32);
    let result = prepare_outvec(&mut conn, 0);
    assert!(result.is_ok());
    let (index, len, base) = result.unwrap();
    assert_eq!(index, 0);
    assert_eq!(len, 32);
    assert!(base != 0);
    assert!(conn.outvec_mapped[0]);
}

#[test]
fn test_prepare_outvec_already_written() {
    let mut conn = make_test_connection(0, 32);
    conn.outvec_written[0] = 1;
    assert_eq!(prepare_outvec(&mut conn, 0), Err(StatusCode::ProgrammerError));
}

#[test]
fn test_mark_invec_unmapped() {
    let mut conn = make_test_connection(16, 0);
    mark_invec_unmapped(&mut conn, 0).unwrap();
    assert!(conn.invec_unmapped[0]);
}

#[test]
fn test_mark_invec_unmapped_double_returns_error() {
    let mut conn = make_test_connection(16, 0);
    conn.invec_unmapped[0] = true;
    assert_eq!(mark_invec_unmapped(&mut conn, 0), Err(StatusCode::ProgrammerError));
}

#[test]
fn test_commit_outvec_write_valid() {
    let mut conn = make_test_connection(0, 32);
    assert_eq!(commit_outvec_write(&mut conn, 0, 32, 10), Ok(()));
    assert_eq!(conn.outvec_written[0], 10);
    assert_eq!(conn.msg.out_size[0], MaybeUsize::some(10));
    assert!(conn.outvec_unmapped[0]);
}

#[test]
fn test_commit_outvec_write_overflow_returns_error() {
    let mut conn = make_test_connection(0, 32);
    assert_eq!(
        commit_outvec_write(&mut conn, 0, 32, 33),
        Err(StatusCode::ProgrammerError)
    );
}

#[test]
fn test_commit_outvec_write_already_unmapped_returns_error() {
    let mut conn = make_test_connection(0, 32);
    conn.outvec_unmapped[0] = true;
    assert_eq!(
        commit_outvec_write(&mut conn, 0, 32, 10),
        Err(StatusCode::ProgrammerError)
    );
}

#[test]
fn zero_length_vectors_allow_null_bases() {
    assert_eq!(validate_pointer_range(0, 0), Ok(()));
    let mut conn = make_test_connection(0, 0);
    conn.invec_base[0] = 0;
    conn.outvec_base[0] = 0;
    assert_eq!(prepare_invec(&mut conn, 0), Ok((0, 0, 0)));
    assert_eq!(prepare_outvec(&mut conn, 0), Ok((0, 0, 0)));
}

#[test]
fn absent_vector_maps_as_empty() {
    let mut conn = make_test_connection(16, 0);
    // Vector 1 was never given; it reads as zero bytes.
    let (index, len, _) = prepare_invec(&mut conn, 1).unwrap();
    assert_eq!((index, len), (1, 0));
}
