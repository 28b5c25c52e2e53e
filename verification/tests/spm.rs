use spe::mpu::{MpuPermissions, MpuRegion};
use spe::spm::connection_stack::{Connection, ConnectionArray, SpmError, StackModel, PSA_MAX_IOVEC};
use spe::spm::process::{exception_frame, IpcProcess, ServiceProcess, ServiceVectors};
use spe::spm::spm_fn::{SfnPlatform, SpmFn};
use spe::spm::spm_ipc::{begin_call, CustomMpuRegion, IpcPlatform, SpmIpc, SpmIpcState};
use spe::spm_api::connection::{finish_invec_raw, prepare_invec_raw, MemoryPermission};
use spe::spm_api::svc::{
    handle_svc_with_ipc, IpcSvcAction, SvcStackFrame, SVC_PSA_ACCESS_VEC, SVC_PSA_CALL,
    SVC_PSA_RELEASE_VEC, SVC_PSA_VERSION,
};
use spe::spm_api::{CallerAttributes, MaybeUsize, PsaMsg};
use spe::types::CtrlParam;
use spe::status::StatusCode;
use spe::types::{FFInVec, FFOutVec, ServiceHandle};

struct MockPlatform;

impl SfnPlatform for MockPlatform {
    fn spec_permits(&self, _base: usize, _len: usize, _is_write: bool, _caller: CallerAttributes) -> bool {
        true
    }

    fn spec_version(&self, _handle: ServiceHandle) -> Option<u32> {
        Some(1)
    }

    fn spec_reads_in_vecs(&self, _addr: usize, n: usize, v: Vec<FFInVec>) -> bool {
        v.len() == n && v.iter().all(|d| d.base == 0 && d.len == 0)
    }

    fn spec_reads_out_vecs(&self, _addr: usize, n: usize, v: Vec<FFOutVec>) -> bool {
        v.len() == n && v.iter().all(|d| d.base == 0 && d.len == 0)
    }

    fn spec_may_answer(&self, _stack: StackModel, _msg: PsaMsg, r: Result<(), StatusCode>) -> bool {
        r == Ok(())
    }

    fn call(&self, _connections: &mut ConnectionArray, _msg: PsaMsg) -> Result<(), StatusCode> {
        Ok(())
    }

    fn has_permission_on_memory(
        &self,
        _base: usize,
        _len: usize,
        _is_write: bool,
        _caller: CallerAttributes,
    ) -> bool {
        true
    }

    fn version(&self, _handle: ServiceHandle) -> Option<u32> {
        Some(1)
    }

    fn read_in_vecs(&self, _addr: usize, n: usize) -> Vec<FFInVec> {
        vec![FFInVec { base: 0, len: 0 }; n]
    }

    fn read_out_vecs(&self, _addr: usize, n: usize) -> Vec<FFOutVec> {
        vec![FFOutVec { base: 0, len: 0 }; n]
    }
}

fn create_dummy_connection_with_handle(handle: ServiceHandle) -> Connection {
    Connection {
        msg: PsaMsg::new(handle, 1, CallerAttributes::secure_unprivileged()),
        invec_base: [0; PSA_MAX_IOVEC],
        invec_accessed: [0; PSA_MAX_IOVEC],
        invec_mapped: [false; PSA_MAX_IOVEC],
        invec_unmapped: [false; PSA_MAX_IOVEC],
        outvec_base: [0; PSA_MAX_IOVEC],
        outvec_written: [0; PSA_MAX_IOVEC],
        outvec_mapped: [false; PSA_MAX_IOVEC],
        outvec_unmapped: [false; PSA_MAX_IOVEC],
    }
}

fn create_dummy_connection() -> Connection {
    create_dummy_connection_with_handle(ServiceHandle::Crypto)
}

#[test]
fn test_spm_fn_call_success() {
    let mut spm = SpmFn::new(MockPlatform);
    let conn = create_dummy_connection();
    let res = spm.call(conn);
    assert_eq!(res, Ok(()));
}

#[test]
fn test_spm_fn_has_permission() {
    let spm = SpmFn::new(MockPlatform);
    let perm = spm.has_real_permission(0, 10, false, CallerAttributes::secure_unprivileged());
    assert!(perm);
}

#[test]
fn test_spm_fn_version() {
    let spm = SpmFn::new(MockPlatform);
    assert_eq!(spm.version(ServiceHandle::Crypto), Some(1));
}

#[test]
fn test_with_active_connection() {
    let mut spm = SpmFn::new(MockPlatform);
    let conn = create_dummy_connection();
    let _ = spm.add_connection(conn);

    let res = spm.with_active_connection(|c| c.msg.handle == ServiceHandle::Crypto);
    assert_eq!(res, Ok(true));

    spm.pop_connection();
}

#[test]
fn test_multiple_psa_calls_nested() {
    let mut spm = SpmFn::new(MockPlatform);

    let conn1 = create_dummy_connection_with_handle(ServiceHandle::Crypto);
    let conn2 = create_dummy_connection_with_handle(ServiceHandle::AttestationService);
    let conn3 = create_dummy_connection_with_handle(ServiceHandle::InternalTrustedStorageService);

    assert_eq!(spm.add_connection(conn1), Ok(()));
    assert_eq!(spm.add_connection(conn2), Ok(()));
    assert_eq!(spm.add_connection(conn3), Ok(()));

    spm.with_active_connection(|c| {
        assert_eq!(c.msg.handle, ServiceHandle::InternalTrustedStorageService);
    })
    .unwrap();
    spm.pop_connection();

    spm.with_active_connection(|c| {
        assert_eq!(c.msg.handle, ServiceHandle::AttestationService);
    })
    .unwrap();
    spm.pop_connection();

    spm.with_active_connection(|c| {
        assert_eq!(c.msg.handle, ServiceHandle::Crypto);
    })
    .unwrap();
    spm.pop_connection();
}

#[test]
fn test_multiple_psa_calls_sequential() {
    let mut spm = SpmFn::new(MockPlatform);
    for _ in 0..10 {
        let conn = create_dummy_connection();
        assert_eq!(spm.call(conn), Ok(()));
    }
}

#[test]
fn with_active_connection_on_empty_stack_fails() {
    let mut spm = SpmFn::new(MockPlatform);
    assert_eq!(
        spm.with_active_connection(|_c| 1),
        Err(SpmError::NoActiveConnection)
    );
}

#[test]
fn connection_stack_is_last_in_first_out() {
    let mut stack = ConnectionArray::new();
    assert!(matches!(
        stack.peek_active_connection(),
        Err(SpmError::EmptyConnectionStack)
    ));
    for handle in [
        ServiceHandle::Crypto,
        ServiceHandle::AttestationService,
        ServiceHandle::InternalTrustedStorageService,
        ServiceHandle::Crypto,
    ] {
        assert_eq!(
            stack.add_connection(create_dummy_connection_with_handle(handle)),
            Ok(())
        );
    }
    // The stack holds four calls at most.
    assert_eq!(
        stack.add_connection(create_dummy_connection()),
        Err(SpmError::ConnectionStackFull)
    );
    stack.pop_connection();
    let top = stack.peek_active_connection().unwrap();
    assert_eq!(top.msg.handle, ServiceHandle::InternalTrustedStorageService);

    let (index, conn) = stack.take_active_connection().unwrap();
    assert_eq!(index, 2);
    assert!(matches!(
        stack.peek_active_connection(),
        Err(SpmError::CorruptedConnectionStack)
    ));
    assert_eq!(stack.restore_active_connection(index, conn), Ok(()));
    assert_eq!(
        stack.restore_active_connection(index, conn),
        Err(SpmError::CorruptedConnectionStack)
    );
}

// -- IPC manager --------------------------------------------------------

struct MockIpcPlatform {
    regions: Vec<CustomMpuRegion>,
}

impl IpcPlatform for MockIpcPlatform {
    fn spec_permits(&self, _base: usize, _len: usize, _is_write: bool, _caller: CallerAttributes) -> bool {
        true
    }

    fn has_permission_on_memory(
        &self,
        _base: usize,
        _len: usize,
        _is_write: bool,
        _caller: CallerAttributes,
    ) -> bool {
        true
    }

    fn spec_custom_mpu_regions(&self, _handle: ServiceHandle) -> &[CustomMpuRegion] {
        &self.regions
    }

    fn custom_mpu_regions(&self, _handle: ServiceHandle) -> &[CustomMpuRegion] {
        &self.regions
    }
}

struct MockProcess {
    handle: ServiceHandle,
}

impl IpcProcess for MockProcess {
    fn spec_handle(&self) -> ServiceHandle {
        self.handle
    }

    fn spec_vectors(&self) -> Option<ServiceVectors> {
        None
    }

    fn spec_version(&self) -> u32 {
        1
    }

    fn handle(&self) -> ServiceHandle {
        self.handle
    }

    fn get_vectors(&self) -> Option<ServiceVectors> {
        None
    }

    fn version(&self) -> u32 {
        1
    }
}

fn no_regions() -> MockIpcPlatform {
    MockIpcPlatform { regions: Vec::new() }
}

#[test]
fn test_spm_ipc_state_init() {
    let mut state = SpmIpcState::<2>::new();
    assert_eq!(state.mark_init_done(0), Ok(true));
    assert_eq!(state.mark_init_done(0), Ok(false)); // already done

    assert_eq!(state.mark_init_done(1), Ok(true));

    // Out of bounds
    assert_eq!(
        state.mark_init_done(2),
        Err(SpmError::CorruptedConnectionStack)
    );
}

#[test]
fn test_spm_ipc_find_process() {
    let processes = [
        MockProcess {
            handle: ServiceHandle::Crypto,
        },
        MockProcess {
            handle: ServiceHandle::AttestationService,
        },
    ];
    let spm = SpmIpc::new(no_regions(), processes);

    assert_eq!(spm.find_process_index(ServiceHandle::Crypto), Some(0));
    assert_eq!(
        spm.find_process_index(ServiceHandle::AttestationService),
        Some(1)
    );
    assert_eq!(
        spm.find_process_index(ServiceHandle::InternalTrustedStorageService),
        None
    );
}

#[test]
fn test_spm_ipc_version() {
    let processes = [MockProcess {
        handle: ServiceHandle::Crypto,
    }];
    let spm = SpmIpc::new(no_regions(), processes);

    assert_eq!(spm.version(ServiceHandle::Crypto), Some(1));
    assert_eq!(spm.version(ServiceHandle::AttestationService), None);
}

fn flash_vectors() -> ServiceVectors {
    ServiceVectors {
        version: 3,
        init_entry: 0x1000_0101,
        call_entry: 0x1000_0201,
        rom_start: 0x1000_0000,
        rom_limit: 0x1000_4000,
        ram_start: 0x2000_0000,
        ram_limit: 0x2000_0400,
        stack_limit: 0x2000_0000,
        stack_top: 0x2000_03F0,
    }
}

#[test]
fn test_align_down() {
    assert_eq!(ServiceProcess::align_down(100, 8), 96);
    assert_eq!(ServiceProcess::align_down(100, 16), 96);
    assert_eq!(ServiceProcess::align_down(100, 32), 96);
    assert_eq!(ServiceProcess::align_down(64, 8), 64);
    assert_eq!(ServiceProcess::align_down(0, 8), 0);
}

#[test]
fn test_stage_msg_mailbox() {
    let vectors = flash_vectors();
    let msg_size = std::mem::size_of::<PsaMsg>();
    let msg_align = std::cmp::max(std::mem::align_of::<PsaMsg>(), 8);
    let frame_size = 8 * std::mem::size_of::<usize>();

    let msg_addr = ServiceProcess::mailbox_address(&vectors, msg_size, msg_align, frame_size);

    assert!(msg_addr >= vectors.ram_start);
    assert!(msg_addr + msg_size <= vectors.stack_top);
    assert_eq!(msg_addr % msg_align, 0);
    assert!(msg_addr - frame_size >= vectors.stack_limit);
    assert_eq!(msg_addr, (vectors.stack_top - msg_size) & !(msg_align - 1));
}

#[test]
fn exception_frame_layout() {
    let word = std::mem::size_of::<usize>();
    let (base, words) = exception_frame(0x1000_0201, 0xABCD, 0x2000_0000, 0x2000_0400);
    assert_eq!(base, 0x2000_0400 - 8 * word);
    assert_eq!(words, [0xABCD, 0, 0, 0, 0, 0xFFFF_FFFF, 0x1000_0201, 0x0100_0000]);
}

#[test]
fn rom_and_ram_regions() {
    let v = flash_vectors();
    let rom = v.rom_region();
    assert_eq!((rom.base, rom.size), (0x1000_0000, 0x4000));
    let ram = v.ram_region();
    assert_eq!((ram.base, ram.size), (0x2000_0000, 0x400));
    let reversed = ServiceVectors {
        rom_limit: 0x0FFF_0000,
        ..v
    };
    assert_eq!(reversed.rom_region().size, 0);
}

#[test]
fn service_process_reports_its_layout() {
    let p = ServiceProcess::new(ServiceHandle::Crypto, flash_vectors());
    assert_eq!(p.handle(), ServiceHandle::Crypto);
    assert_eq!(p.version(), 3);
    assert_eq!(p.get_vectors(), Some(flash_vectors()));
}

fn crypto_connection_with_invec(base: usize, len: usize) -> Connection {
    let mut conn = create_dummy_connection_with_handle(ServiceHandle::Crypto);
    conn.msg.in_size[0] = MaybeUsize::some(len);
    conn.invec_base[0] = base;
    conn
}

#[test]
fn ipc_call_enters_and_leaves() {
    let processes = [
        ServiceProcess::new(ServiceHandle::Crypto, flash_vectors()),
        ServiceProcess::new(ServiceHandle::AttestationService, flash_vectors()),
    ];
    let mut spm = SpmIpc::new(no_regions(), processes);

    let outer = create_dummy_connection_with_handle(ServiceHandle::AttestationService);
    assert_eq!(spm.enter_call(&outer), Ok((1, true)));
    let inner = create_dummy_connection_with_handle(ServiceHandle::Crypto);
    assert_eq!(spm.enter_call(&inner), Ok((0, true)));
    // Leaving the inner call hands back the outer call's process.
    assert_eq!(spm.get_last_process_index(), Some(1));
    // The crypto process is started once only.
    assert_eq!(spm.enter_call(&inner), Ok((0, false)));
    assert_eq!(spm.get_last_process_index(), Some(1));
    assert_eq!(spm.get_last_process_index(), None);

    let unknown = create_dummy_connection_with_handle(ServiceHandle::InternalTrustedStorageService);
    assert_eq!(spm.enter_call(&unknown), Err(StatusCode::NotSupported));
}

#[test]
fn ipc_call_stack_full_is_insufficient_memory() {
    let processes = [ServiceProcess::new(ServiceHandle::Crypto, flash_vectors())];
    let mut spm = SpmIpc::new(no_regions(), processes);
    let conn = create_dummy_connection();
    for _ in 0..4 {
        assert!(spm.enter_call(&conn).is_ok());
    }
    assert_eq!(spm.enter_call(&conn), Err(StatusCode::InsufficientMemory));
}

#[test]
fn ipc_mpu_regions_follow_vector_mapping() {
    let device = CustomMpuRegion {
        base: 0x4000_0000,
        size: 0x100,
        permissions: MpuPermissions::ReadWriteXN,
    };
    let processes = [ServiceProcess::new(ServiceHandle::Crypto, flash_vectors())];
    let mut spm = SpmIpc::new(
        MockIpcPlatform {
            regions: vec![device],
        },
        processes,
    );
    let rom = MpuRegion {
        base: 0x1000_0000,
        size: 0x4000,
        permissions: MpuPermissions::ReadExecute,
    };
    let ram = MpuRegion {
        base: 0x2000_0000,
        size: 0x400,
        permissions: MpuPermissions::ReadWriteXN,
    };
    let dev = MpuRegion {
        base: 0x4000_0000,
        size: 0x100,
        permissions: MpuPermissions::ReadWriteXN,
    };

    // No call yet: only the image and the device window.
    assert_eq!(spm.mpu_config(0), Some(vec![rom, ram, dev]));
    assert_eq!(spm.mpu_config(1), None);

    let conn = crypto_connection_with_invec(0x3000_0010, 0x31);
    assert!(spm.enter_call(&conn).is_ok());
    assert_eq!(spm.mpu_config(0), Some(vec![rom, ram, dev]));

    // Mapping the input vector adds its region, rounded out to 32 bytes.
    assert_eq!(spm.update_vec_mapping(false, 0, true), Some(0));
    let vec = MpuRegion {
        base: 0x3000_0000,
        size: 0x60,
        permissions: MpuPermissions::ReadXN,
    };
    assert_eq!(spm.mpu_config(0), Some(vec![rom, ram, dev, vec]));
    assert_eq!(spm.mpu_regions_with(0, &[]), Some(vec![rom, ram, vec]));

    // Releasing it takes the region away again.
    assert_eq!(spm.update_vec_mapping(false, 0, false), Some(0));
    assert_eq!(spm.mpu_config(0), Some(vec![rom, ram, dev]));
}

#[test]
fn ipc_update_vec_mapping_without_call_changes_nothing() {
    let processes = [MockProcess {
        handle: ServiceHandle::Crypto,
    }];
    let mut spm = SpmIpc::new(no_regions(), processes);
    assert_eq!(spm.update_vec_mapping(true, 0, true), None);
    // A process that is not a separate binary has no regions.
    assert_eq!(spm.mpu_config(0), None);
}

fn frame(r0: usize, r1: usize, r2: usize, r3: usize) -> SvcStackFrame {
    SvcStackFrame {
        r0,
        r1,
        r2,
        r3,
        r12: 0,
        lr: 0,
        pc: 0,
        xpsr: 0,
    }
}

#[test]
fn ipc_supervisor_calls() {
    let processes = [ServiceProcess::new(ServiceHandle::Crypto, flash_vectors())];
    let mut spm = SpmIpc::new(no_regions(), processes);
    let conn = crypto_connection_with_invec(0x3000_0040, 0x20);
    assert!(spm.enter_call(&conn).is_ok());
    let h = ServiceHandle::Crypto.value() as usize;

    let mut access = frame(h, 0, 0, 0);
    assert_eq!(
        handle_svc_with_ipc(SVC_PSA_ACCESS_VEC, &mut access, &mut spm),
        IpcSvcAction::Answered(Some(0))
    );
    assert_eq!((access.r0, access.r1, access.r2, access.r3), (0, 0x3000_0040, 0x20, 0));
    let regions = spm.mpu_config(0).unwrap();
    assert_eq!(regions.len(), 3);
    assert_eq!(regions[2].base, 0x3000_0040);

    let mut release = frame(h, 0, 0, 0);
    assert_eq!(
        handle_svc_with_ipc(SVC_PSA_RELEASE_VEC, &mut release, &mut spm),
        IpcSvcAction::Answered(Some(0))
    );
    assert_eq!(release.r0, 0);
    assert_eq!(spm.mpu_config(0).unwrap().len(), 2);

    let mut version = frame(h, 0, 0, 0);
    assert_eq!(
        handle_svc_with_ipc(SVC_PSA_VERSION, &mut version, &mut spm),
        IpcSvcAction::Answered(None)
    );
    assert_eq!(version.r0, 3);

    let ctrl = CtrlParam::new(2, 1, false, 0, false);
    let mut call = frame(h, ctrl.raw as usize, 0x4000, 0);
    assert_eq!(
        handle_svc_with_ipc(SVC_PSA_CALL, &mut call, &mut spm),
        IpcSvcAction::Call(ServiceHandle::Crypto, ctrl, 0x4000, 0)
    );

    let mut other = frame(h, 1, 2, 3);
    assert_eq!(
        handle_svc_with_ipc(0x42, &mut other, &mut spm),
        IpcSvcAction::NotHandled
    );

    let mut bad = frame(0xDEAD_BEEF, 1, 2, 3);
    assert_eq!(
        handle_svc_with_ipc(SVC_PSA_VERSION, &mut bad, &mut spm),
        IpcSvcAction::Answered(None)
    );
    assert_eq!(bad.r0 as isize, StatusCode::InvalidHandle.value());
    assert_eq!((bad.r1, bad.r2, bad.r3), (0, 0, 0));
}

#[test]
fn ipc_access_without_call_fails() {
    let processes = [ServiceProcess::new(ServiceHandle::Crypto, flash_vectors())];
    let mut spm = SpmIpc::new(no_regions(), processes);
    let mut access = frame(ServiceHandle::Crypto.value() as usize, 0, 0, 0);
    assert_eq!(
        handle_svc_with_ipc(SVC_PSA_ACCESS_VEC, &mut access, &mut spm),
        IpcSvcAction::Answered(None)
    );
    assert_eq!(access.r0 as isize, StatusCode::CommunicationFailure.value());
}

#[test]
fn ipc_begin_call_looks_up_before_the_lock() {
    let processes = [ServiceProcess::new(ServiceHandle::Crypto, flash_vectors())];
    let mut spm = SpmIpc::new(no_regions(), processes);
    let unknown = create_dummy_connection_with_handle(ServiceHandle::AttestationService);
    let known = create_dummy_connection();
    // An unknown service is refused even while the state is locked.
    assert_eq!(
        begin_call::<MockIpcPlatform, 1, ServiceProcess>(&processes, None, &unknown),
        Err(StatusCode::NotSupported)
    );
    assert_eq!(
        begin_call::<MockIpcPlatform, 1, ServiceProcess>(&processes, None, &known),
        Err(StatusCode::ConnectionBusy)
    );
    assert_eq!(begin_call(&processes, Some(&mut spm), &unknown), Err(StatusCode::NotSupported));
    assert_eq!(begin_call(&processes, Some(&mut spm), &known), Ok((0, true)));
    assert_eq!(begin_call(&processes, Some(&mut spm), &known), Ok((0, false)));
}

#[test]
fn with_active_connection_returns_result_and_keeps_writes() {
    let mut spm = SpmFn::new(MockPlatform);
    assert_eq!(spm.add_connection(create_dummy_connection()), Ok(()));
    let r = spm.with_active_connection(|c| {
        c.invec_mapped[1] = true;
        c.msg.handle
    });
    assert_eq!(r, Ok(ServiceHandle::Crypto));
    assert_eq!(spm.with_active_connection(|c| c.invec_mapped[1]), Ok(true));
}

/// A board whose service checks that it runs with its own connection
/// innermost, and maps and releases its input vector through it.
struct StackCheckingPlatform;

impl SfnPlatform for StackCheckingPlatform {
    fn spec_permits(&self, _base: usize, _len: usize, _is_write: bool, _caller: CallerAttributes) -> bool {
        true
    }

    fn spec_version(&self, _handle: ServiceHandle) -> Option<u32> {
        None
    }

    fn spec_reads_in_vecs(&self, _addr: usize, n: usize, v: Vec<FFInVec>) -> bool {
        v.len() == n
    }

    fn spec_reads_out_vecs(&self, _addr: usize, n: usize, v: Vec<FFOutVec>) -> bool {
        v.len() == n
    }

    fn spec_may_answer(&self, _stack: StackModel, _msg: PsaMsg, _r: Result<(), StatusCode>) -> bool {
        true
    }

    fn call(&self, connections: &mut ConnectionArray, msg: PsaMsg) -> Result<(), StatusCode> {
        match connections.peek_active_connection() {
            Ok(c) if c.msg.handle == msg.handle => {}
            _ => return Err(StatusCode::ProgrammerError),
        }
        let raw = prepare_invec_raw(connections, msg.handle, 0)?;
        if raw.len != 0x20 {
            return Err(StatusCode::GenericError);
        }
        finish_invec_raw(connections, msg.handle, 0)
    }

    fn has_permission_on_memory(
        &self,
        _base: usize,
        _len: usize,
        _is_write: bool,
        _caller: CallerAttributes,
    ) -> bool {
        true
    }

    fn version(&self, _handle: ServiceHandle) -> Option<u32> {
        None
    }

    fn read_in_vecs(&self, _addr: usize, n: usize) -> Vec<FFInVec> {
        vec![FFInVec { base: 0x3000_0000, len: 0x20 }; n]
    }

    fn read_out_vecs(&self, _addr: usize, n: usize) -> Vec<FFOutVec> {
        vec![FFOutVec { base: 0, len: 0 }; n]
    }
}

#[test]
fn spm_fn_call_runs_service_with_its_connection_innermost() {
    let mut spm = SpmFn::new(StackCheckingPlatform);
    // An outer call is in progress.
    assert_eq!(spm.add_connection(create_dummy_connection_with_handle(ServiceHandle::AttestationService)), Ok(()));
    let conn = crypto_connection_with_invec(0x3000_0000, 0x20);
    assert_eq!(spm.call(conn), Ok(()));
    // The stack is back to the outer call alone.
    assert_eq!(spm.connections.depth(), 1);
    assert_eq!(
        spm.with_active_connection(|c| c.msg.handle),
        Ok(ServiceHandle::AttestationService)
    );
}
