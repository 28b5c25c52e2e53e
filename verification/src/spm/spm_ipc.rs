//! The IPC partition manager: each service runs as its own sandboxed
//! process. The manager keeps the stack of calls in progress, starts each
//! process once, tracks the IO vectors lent to the active call and works
//! out the MPU regions the running process is given.
use vstd::prelude::*;

use crate::mpu::{spec_vec_region, vec_region, MpuPermissions, MpuRegion};
use crate::spm::connection_stack::{
    law_ops_keep_unused_slots_empty,
    spec_peek, spec_pop, spec_push, spec_take, spec_take_result, spec_unused_slots_empty, Connection,
    ConnectionArray, ConnectionView, SpmError, StackModel, MAX_CONNECTIONS, PSA_MAX_IOVEC,
};
use crate::spm::process::{IpcProcess, ServiceVectors};
use crate::spm_api::connection::{
    MemoryPermission,
    finish_invec_raw, finish_outvec_raw, prepare_invec_raw, prepare_outvec_raw, spec_validated_post,
    spec_validated_result, VecOp,
};
use crate::spm_api::svc::lemma_validated_keeps_unused_empty;
use crate::spm_api::{CallerAttributes, MaybeUsize, RawVec};
use crate::status::StatusCode;
use crate::types::ServiceHandle;

verus! {

/// The manager's mutable state: the calls in progress and which processes
/// have been started.
pub struct SpmIpcState<const N: usize> {
    pub connections: ConnectionArray,
    pub init_done: Vec<bool>,
}

impl<const N: usize> SpmIpcState<N> {
    /// A well-formed stack with empty unused slots, and one flag per process.
    pub open spec fn wf(&self) -> bool {
        &&& self.connections.wf()
        &&& spec_unused_slots_empty(self.connections@)
        &&& self.init_done@.len() == N
    }

    /// No call in progress and no process started.
    pub fn new() -> (r: Self)
        ensures
            r.wf(),
            r.connections@.top == 0,
            forall|i: int| 0 <= i < N ==> !r.init_done@[i],
    {
        let mut init_done: Vec<bool> = Vec::new();
        let mut i: usize = 0;
        while i < N
            invariant
                0 <= i <= N,
                init_done@.len() == i,
                forall|j: int| 0 <= j < i ==> !init_done@[j],
            decreases N - i,
        {
            init_done.push(false);
            i = i + 1;
        }
        SpmIpcState { connections: ConnectionArray::new(), init_done }
    }

    /// Records that process `index` has been started: `Ok(true)` the first
    /// time, `Ok(false)` after that, and `CorruptedConnectionStack` for an
    /// index past the processes.
    pub fn mark_init_done(&mut self, index: usize) -> (r: Result<bool, SpmError>)
        requires
            old(self).wf(),
        ensures
            final(self).wf(),
            final(self).connections@ == old(self).connections@,
            index >= N ==> r == Err::<bool, SpmError>(SpmError::CorruptedConnectionStack)
                && final(self).init_done@ == old(self).init_done@,
            index < N ==> r == Ok::<bool, SpmError>(!old(self).init_done@[index as int])
                && final(self).init_done@ == old(self).init_done@.update(index as int, true),
    {
        if index >= N {
            return Err(SpmError::CorruptedConnectionStack);
        }
        if self.init_done[index] {
            Ok(false)
        } else {
            self.init_done.set(index, true);
            Ok(true)
        }
    }
}

/// A device window a platform opens to one service.
#[derive(Clone, Copy, Debug, PartialEq, Eq, Structural)]
pub struct CustomMpuRegion {
    pub base: usize,
    pub size: usize,
    pub permissions: MpuPermissions,
}

/// What a board provides to the IPC partition manager.
pub trait IpcPlatform {
    /// The board's memory-protection policy.
    spec fn spec_permits(&self, base: usize, len: usize, is_write: bool, caller: CallerAttributes) -> bool;

    /// Whether `caller` may access `len` bytes at `base`.
    fn has_permission_on_memory(&self, base: usize, len: usize, is_write: bool, caller: CallerAttributes) -> (r: bool)
        ensures
            r == self.spec_permits(base, len, is_write, caller),
    ;

    /// The device windows this board opens to the service `handle`.
    spec fn spec_custom_mpu_regions(&self, handle: ServiceHandle) -> &[CustomMpuRegion];

    /// The device windows the service `handle` may use.
    fn custom_mpu_regions(&self, handle: ServiceHandle) -> (r: &[CustomMpuRegion])
        ensures
            r@ == self.spec_custom_mpu_regions(handle)@,
    ;
}

/// A platform that also prepares a flash process before it first runs.
pub trait IpcProcessPlatform: IpcPlatform {
    /// Prepares the process laid out as `vectors`; nothing by default.
    fn prepare_process(&self, vectors: &ServiceVectors) {
    }
}

/// The index of the first process at or after `from` that provides
/// `handle`.
pub open spec fn spec_first_with_handle<Proc: IpcProcess>(procs: Seq<Proc>, handle: ServiceHandle, from: int) -> Option<
    usize,
>
    decreases procs.len() - from,
{
    if from < 0 || from >= procs.len() {
        None
    } else if procs[from].spec_handle() == handle {
        Some(from as usize)
    } else {
        spec_first_with_handle(procs, handle, from + 1)
    }
}

/// The connection with vector `idx` of one side marked mapped or released:
/// `mapped` and "unmapped" are set to `mapped` and its opposite. Indices past
/// the vectors change nothing.
pub open spec fn spec_set_mapping(v: ConnectionView, is_outvec: bool, idx: int, mapped: bool) -> ConnectionView {
    if idx >= PSA_MAX_IOVEC {
        v
    } else if is_outvec {
        ConnectionView {
            outvec_mapped: v.outvec_mapped.update(idx, mapped),
            outvec_unmapped: v.outvec_unmapped.update(idx, !mapped),
            ..v
        }
    } else {
        ConnectionView {
            invec_mapped: v.invec_mapped.update(idx, mapped),
            invec_unmapped: v.invec_unmapped.update(idx, !mapped),
            ..v
        }
    }
}

/// The region a lent vector needs while it is mapped and not yet released.
pub open spec fn spec_lent_vec_region(
    mapped: bool,
    unmapped: bool,
    size: MaybeUsize,
    base: usize,
    permissions: MpuPermissions,
) -> Seq<MpuRegion> {
    if mapped && !unmapped && size.spec_option() is Some && spec_vec_region(
        base,
        size.spec_option()->0,
        permissions,
    ) is Some {
        seq![spec_vec_region(base, size.spec_option()->0, permissions)->0]
    } else {
        Seq::empty()
    }
}

/// The regions of the first `n` vectors of one side, in order.
pub open spec fn spec_lent_regions(
    mapped: Seq<bool>,
    unmapped: Seq<bool>,
    sizes: Seq<MaybeUsize>,
    bases: Seq<usize>,
    permissions: MpuPermissions,
    n: int,
) -> Seq<MpuRegion>
    decreases n,
{
    if n <= 0 {
        Seq::empty()
    } else {
        spec_lent_regions(mapped, unmapped, sizes, bases, permissions, n - 1) + spec_lent_vec_region(
            mapped[n - 1],
            unmapped[n - 1],
            sizes[n - 1],
            bases[n - 1],
            permissions,
        )
    }
}

/// The regions of the vectors a connection currently lends: input vectors
/// read-only, then output vectors read-write, neither executable.
pub open spec fn spec_connection_regions(c: ConnectionView) -> Seq<MpuRegion> {
    spec_lent_regions(c.invec_mapped, c.invec_unmapped, c.in_size, c.invec_base, MpuPermissions::ReadXN, 4)
        + spec_lent_regions(
        c.outvec_mapped,
        c.outvec_unmapped,
        c.out_size,
        c.outvec_base,
        MpuPermissions::ReadWriteXN,
        4,
    )
}

/// The region a device window stands for.
pub open spec fn spec_custom_region(c: CustomMpuRegion) -> MpuRegion {
    MpuRegion { base: c.base, size: c.size, permissions: c.permissions }
}

/// The code and data windows of a service binary.
pub open spec fn spec_image_regions(v: ServiceVectors) -> Seq<MpuRegion> {
    seq![
        MpuRegion {
            base: v.rom_start,
            size: crate::spm::process::spec_window_size(v.rom_start, v.rom_limit) as usize,
            permissions: MpuPermissions::ReadExecute,
        },
        MpuRegion {
            base: v.ram_start,
            size: crate::spm::process::spec_window_size(v.ram_start, v.ram_limit) as usize,
            permissions: MpuPermissions::ReadWriteXN,
        },
    ]
}

/// The IPC partition manager over a board's platform and its processes.
pub struct SpmIpc<P: IpcPlatform, const N: usize, Proc: IpcProcess> {
    state: SpmIpcState<N>,
    platform: P,
    processes: [Proc; N],
}

impl<P: IpcPlatform, const N: usize, Proc: IpcProcess> SpmIpc<P, N, Proc> {
    /// The board's platform.
    pub closed spec fn platform_view(&self) -> P {
        self.platform
    }

    /// The processes, in order.
    pub closed spec fn procs(&self) -> Seq<Proc> {
        self.processes@
    }

    /// The calls in progress.
    pub closed spec fn stack(&self) -> StackModel {
        self.state.connections@
    }

    /// Which processes have been started.
    pub closed spec fn started(&self) -> Seq<bool> {
        self.state.init_done@
    }

    /// The state is well formed.
    pub closed spec fn wf(&self) -> bool {
        self.state.wf()
    }

    /// The regions process `index` runs under, given the device windows the
    /// platform opens to it: none when it is not a separate binary.
    pub open spec fn spec_regions(&self, index: usize, custom: Seq<CustomMpuRegion>) -> Option<Seq<MpuRegion>> {
        if index >= N || self.procs()[index as int].spec_vectors() is None {
            None
        } else {
            let lent = match spec_peek(self.stack()) {
                Ok(c) => if spec_first_with_handle(self.procs(), c.msg.handle, 0) == Some(index) {
                    spec_connection_regions(c@)
                } else {
                    Seq::empty()
                },
                Err(_) => Seq::empty(),
            };
            Some(
                spec_image_regions(self.procs()[index as int].spec_vectors()->0) + custom.map_values(
                    |c: CustomMpuRegion| spec_custom_region(c),
                ) + lent,
            )
        }
    }

    /// A manager with no call in progress and no process started.
    pub fn new(platform: P, processes: [Proc; N]) -> (r: Self)
        ensures
            r.wf(),
            r.procs() == processes@,
            r.stack().top == 0,
            forall|i: int| 0 <= i < N ==> !r.started()[i],
    {
        SpmIpc { state: SpmIpcState::new(), platform, processes }
    }

    /// The process at `index`.
    pub fn process_at(&self, index: usize) -> (r: &Proc)
        requires
            index < N,
        ensures
            *r == self.procs()[index as int],
    {
        &self.processes[index]
    }

    /// The index of the first process that provides `handle`.
    pub fn find_process_index(&self, handle: ServiceHandle) -> (r: Option<usize>)
        ensures
            r == spec_first_with_handle(self.procs(), handle, 0),
    {
        let mut i: usize = 0;
        while i < N
            invariant
                0 <= i <= N,
                self.procs().len() == N,
                spec_first_with_handle(self.procs(), handle, 0) == spec_first_with_handle(
                    self.procs(),
                    handle,
                    i as int,
                ),
            decreases N - i,
        {
            if self.processes[i].handle() == handle {
                return Some(i);
            }
            i = i + 1;
        }
        None
    }

    /// The version of the service `handle` names, if a process provides it.
    pub fn version(&self, handle: ServiceHandle) -> (r: Option<u32>)
        ensures
            r == match spec_first_with_handle(self.procs(), handle, 0) {
                Some(i) => Some(self.procs()[i as int].spec_version()),
                None => None,
            },
    {
        proof {
            lemma_first_with_handle_in_range(self.procs(), handle, 0);
        }
        match self.find_process_index(handle) {
            Some(i) => Some(self.processes[i].version()),
            None => None,
        }
    }

    /// Starts a call: finds the process for the connection's service
    /// (`NotSupported` if none), pushes the connection
    /// (`InsufficientMemory` if the stack is full) and marks the process
    /// started. Returns the process's index and whether this is its first
    /// call, when it must be initialised first.
    pub fn enter_call(&mut self, connection: &Connection) -> (r: Result<(usize, bool), StatusCode>)
        requires
            old(self).wf(),
        ensures
            final(self).wf(),
            spec_enter_call(*old(self), *final(self), *connection, r),
    {
        proof {
            lemma_first_with_handle_in_range(self.procs(), connection.msg.handle, 0);
        }
        let process_index = match self.find_process_index(connection.msg.handle) {
            Some(i) => i,
            None => {
                return Err(StatusCode::NotSupported);
            },
        };
        match self.state.connections.add_connection(*connection) {
            Ok(()) => {},
            Err(_) => {
                return Err(StatusCode::InsufficientMemory);
            },
        }
        proof {
            law_ops_keep_unused_slots_empty(old(self).stack(), *connection);
        }
        match self.state.mark_init_done(process_index) {
            Ok(first) => Ok((process_index, first)),
            Err(_) => Err(StatusCode::InsufficientMemory),
        }
    }

    /// Ends the innermost call and returns the index of the process that
    /// made it, whose MPU regions must be restored, if any call is left.
    pub fn get_last_process_index(&mut self) -> (r: Option<usize>)
        requires
            old(self).wf(),
        ensures
            final(self).wf(),
            final(self).procs() == old(self).procs(),
            final(self).started() == old(self).started(),
            final(self).stack() == spec_pop(old(self).stack()),
            r == match spec_peek(spec_pop(old(self).stack())) {
                Ok(c) => spec_first_with_handle(old(self).procs(), c.msg.handle, 0),
                Err(_) => None,
            },
    {
        self.state.connections.pop_connection();
        proof {
            law_ops_keep_unused_slots_empty(old(self).stack(), arbitrary());
        }
        match self.state.connections.peek_active_connection() {
            Ok(conn) => self.find_process_index(conn.msg.handle),
            Err(_) => None,
        }
    }

    /// The regions process `process_index` runs under, given the device
    /// windows the platform opens to it: its ROM window (read, execute), its
    /// RAM window (read, write), the device windows, and, when the active
    /// call is served by this process, the vectors that call lends. `None`
    /// when there is no such process or it is not a separate binary, and the
    /// MPU is left as it is.
    pub fn mpu_regions_with(&self, process_index: usize, custom: &[CustomMpuRegion]) -> (r: Option<Vec<MpuRegion>>)
        requires
            self.wf(),
        ensures
            match r {
                Some(v) => self.spec_regions(process_index, custom@) == Some(v@),
                None => self.spec_regions(process_index, custom@) is None,
            },
    {
        if process_index >= N {
            return None;
        }
        let vectors = match self.processes[process_index].get_vectors() {
            Some(v) => v,
            None => {
                return None;
            },
        };
        let rom = vectors.rom_region();
        let ram = vectors.ram_region();
        let mut regions: Vec<MpuRegion> = Vec::new();
        regions.push(MpuRegion { base: rom.base, size: rom.size as usize, permissions: MpuPermissions::ReadExecute });
        regions.push(MpuRegion { base: ram.base, size: ram.size as usize, permissions: MpuPermissions::ReadWriteXN });
        proof {
            assert(regions@ =~= spec_image_regions(vectors));
        }
        let mut i: usize = 0;
        while i < custom.len()
            invariant
                0 <= i <= custom@.len(),
                regions@ == spec_image_regions(vectors) + custom@.take(i as int).map_values(
                    |c: CustomMpuRegion| spec_custom_region(c),
                ),
            decreases custom@.len() - i,
        {
            let c = custom[i];
            regions.push(MpuRegion { base: c.base, size: c.size, permissions: c.permissions });
            proof {
                assert(custom@.take(i + 1).map_values(|c: CustomMpuRegion| spec_custom_region(c)) =~= custom@.take(
                    i as int,
                ).map_values(|c: CustomMpuRegion| spec_custom_region(c)).push(spec_custom_region(c)));
            }
            i = i + 1;
        }
        proof {
            assert(custom@.take(custom@.len() as int) =~= custom@);
        }
        let ghost base_regions = regions@;
        match self.state.connections.peek_active_connection() {
            Ok(conn) => match self.find_process_index(conn.msg.handle) {
                Some(owner) => {
                    if owner == process_index {
                        push_lent_regions(
                            &mut regions,
                            &conn.invec_mapped,
                            &conn.invec_unmapped,
                            &conn.msg.in_size,
                            &conn.invec_base,
                            MpuPermissions::ReadXN,
                        );
                        push_lent_regions(
                            &mut regions,
                            &conn.outvec_mapped,
                            &conn.outvec_unmapped,
                            &conn.msg.out_size,
                            &conn.outvec_base,
                            MpuPermissions::ReadWriteXN,
                        );
                        proof {
                            assert(regions@ =~= base_regions + spec_connection_regions(conn@));
                        }
                    } else {
                        proof {
                            assert(regions@ =~= base_regions + Seq::<MpuRegion>::empty());
                        }
                    }
                },
                None => {
                    proof {
                        assert(regions@ =~= base_regions + Seq::<MpuRegion>::empty());
                    }
                },
            },
            Err(_) => {
                proof {
                    assert(regions@ =~= base_regions + Seq::<MpuRegion>::empty());
                }
            },
        }
        Some(regions)
    }

    /// The regions process `process_index` runs under, with the device
    /// windows the platform opens to that process's service; `None` as for
    /// `mpu_regions_with`.
    pub fn mpu_config(&self, process_index: usize) -> (r: Option<Vec<MpuRegion>>)
        requires
            self.wf(),
        ensures
            r is Some <==> (process_index < N && self.procs()[process_index as int].spec_vectors() is Some),
            process_index < N ==> match r {
                Some(v) => self.spec_regions(
                    process_index,
                    self.platform_view().spec_custom_mpu_regions(self.procs()[process_index as int].spec_handle())@,
                ) == Some(v@),
                None => true,
            },
    {
        if process_index >= N {
            return None;
        }
        let handle = self.processes[process_index].handle();
        let custom = self.platform.custom_mpu_regions(handle);
        self.mpu_regions_with(process_index, custom)
    }

    /// Runs `f` on the innermost connection, which is taken out of its slot
    /// for the length of the call and put back afterwards as `f` left it;
    /// returns `f`'s result. Fails, with `f` not run and the stack
    /// unchanged, when there is no innermost connection.
    pub fn with_active_connection<R, F: FnOnce(&mut Connection) -> R>(&mut self, f: F) -> (r: Result<R, SpmError>)
        requires
            old(self).wf(),
            forall|a: (&mut Connection,)| f.requires(a),
        ensures
            final(self).wf(),
            final(self).procs() == old(self).procs(),
            final(self).started() == old(self).started(),
            final(self).stack().top == old(self).stack().top,
            match spec_take_result(old(self).stack()) {
                Err(e) => r == Err::<R, SpmError>(e) && final(self).stack() == old(self).stack(),
                Ok((index, c)) => {
                    &&& r matches Ok(res) && final(self).stack().slots[index as int] matches Some(c2) && exists|
                        m: &mut Connection,
                    | *m == c && *final(m) == c2 && f.ensures((m,), res)
                    &&& forall|j: int| 0 <= j < MAX_CONNECTIONS && j != index ==> final(self).stack().slots[j] == old(
                        self,
                    ).stack().slots[j]
                },
            },
    {
        let (index, mut connection) = match self.state.connections.take_active_connection() {
            Ok(t) => t,
            Err(e) => {
                return Err(e);
            },
        };
        let result = f(&mut connection);
        let restored = self.state.connections.restore_active_connection(index, connection);
        proof {
            assert(restored is Ok);
            assert(self.stack().slots =~= old(self).stack().slots.update(index as int, Some(connection)));
        }
        Ok(result)
    }

    /// Runs one step of the vector protocol on the active call, which must be
    /// the call `msg_handle` names: mapping or releasing an input or output
    /// vector, as `prepare_invec_raw` and its siblings do.
    pub fn vec_step(&mut self, msg_handle: ServiceHandle, op: VecOp) -> (r: Result<RawVec, StatusCode>)
        requires
            old(self).wf(),
        ensures
            final(self).wf(),
            final(self).procs() == old(self).procs(),
            final(self).started() == old(self).started(),
            r == spec_validated_result(old(self).stack(), msg_handle, op),
            spec_validated_post(old(self).stack(), final(self).stack(), msg_handle, op),
    {
        let r = match op {
            VecOp::PrepareInvec(i) => prepare_invec_raw(&mut self.state.connections, msg_handle, i),
            VecOp::PrepareOutvec(i) => prepare_outvec_raw(&mut self.state.connections, msg_handle, i),
            VecOp::FinishInvec(i) => match finish_invec_raw(&mut self.state.connections, msg_handle, i) {
                Ok(()) => Ok(RawVec { base: 0, len: 0 }),
                Err(e) => Err(e),
            },
            VecOp::FinishOutvec(i, w) => match finish_outvec_raw(&mut self.state.connections, msg_handle, i, w) {
                Ok(()) => Ok(RawVec { base: 0, len: 0 }),
                Err(e) => Err(e),
            },
        };
        proof {
            lemma_validated_keeps_unused_empty(old(self).stack(), self.stack(), msg_handle, op);
        }
        r
    }

    /// Marks vector `vec_idx` of the active call mapped or released, and
    /// returns the index of the process serving the call, whose regions must
    /// be worked out again. Nothing changes when there is no active call or
    /// no process for it.
    pub fn update_vec_mapping(&mut self, is_outvec: bool, vec_idx: u32, mapped: bool) -> (r: Option<usize>)
        requires
            old(self).wf(),
        ensures
            final(self).wf(),
            final(self).procs() == old(self).procs(),
            final(self).started() == old(self).started(),
            final(self).stack().top == old(self).stack().top,
            final(self).stack().slots.len() == old(self).stack().slots.len(),
            spec_take_result(old(self).stack()) is Err ==> r is None && final(self).stack() == old(self).stack(),
            spec_take_result(old(self).stack()) matches Ok((_, c)) ==> ({
                let found = spec_first_with_handle(old(self).procs(), c.msg.handle, 0);
                &&& r == found
                &&& found is None ==> final(self).stack() == old(self).stack()
                &&& found is Some ==> (final(self).stack().slots[old(self).stack().top - 1] matches Some(c2) && c2@
                    == spec_set_mapping(c@, is_outvec, vec_idx as int, mapped))
                &&& forall|j: int| 0 <= j < old(self).stack().slots.len() && j != old(self).stack().top - 1 ==> final(self).stack().slots[j]
                    == old(self).stack().slots[j]
            }),
    {
        let (index, mut conn) = match self.state.connections.take_active_connection() {
            Ok(t) => t,
            Err(_) => {
                return None;
            },
        };
        let process_index = self.find_process_index(conn.msg.handle);
        if process_index.is_some() {
            let idx = vec_idx as usize;
            if idx < PSA_MAX_IOVEC {
                if is_outvec {
                    conn.outvec_mapped[idx] = mapped;
                    conn.outvec_unmapped[idx] = !mapped;
                } else {
                    conn.invec_mapped[idx] = mapped;
                    conn.invec_unmapped[idx] = !mapped;
                }
            }
        }
        let restored = self.state.connections.restore_active_connection(index, conn);
        proof {
            assert(restored is Ok);
            assert(self.stack().slots =~= old(self).stack().slots.update(index as int, Some(conn)));
            if process_index is None {
                assert(self.stack().slots =~= old(self).stack().slots);
            }
            assert(conn@ == spec_set_mapping(
                old(self).stack().slots[index as int]->0@,
                is_outvec,
                vec_idx as int,
                mapped,
            ) || process_index is None);
        }
        process_index
    }
}

/// Appends the regions of the vectors one side of a call lends.
fn push_lent_regions(
    regions: &mut Vec<MpuRegion>,
    mapped: &[bool; 4],
    unmapped: &[bool; 4],
    sizes: &[MaybeUsize; 4],
    bases: &[usize; 4],
    permissions: MpuPermissions,
)
    ensures
        final(regions)@ == old(regions)@ + spec_lent_regions(mapped@, unmapped@, sizes@, bases@, permissions, 4),
{
    let mut i: usize = 0;
    while i < 4
        invariant
            0 <= i <= 4,
            regions@ == old(regions)@ + spec_lent_regions(mapped@, unmapped@, sizes@, bases@, permissions, i as int),
        decreases 4 - i,
    {
        let ghost before = regions@;
        if mapped[i] && !unmapped[i] {
            match sizes[i].as_option() {
                Some(size) => match vec_region(bases[i], size, permissions) {
                    Some(region) => regions.push(region),
                    None => {},
                },
                None => {},
            }
        }
        proof {
            assert(regions@ =~= before + spec_lent_vec_region(
                mapped@[i as int],
                unmapped@[i as int],
                sizes@[i as int],
                bases@[i as int],
                permissions,
            ));
        }
        i = i + 1;
    }
}

/// What starting a call does: `NotSupported` when no process provides the
/// connection's service, `InsufficientMemory` when the stack is full, each
/// with nothing changed; otherwise the connection is pushed, the process is
/// marked started, and its index is returned with whether this is its first
/// call.
pub open spec fn spec_enter_call<P: IpcPlatform, const N: usize, Proc: IpcProcess>(
    before: SpmIpc<P, N, Proc>,
    after: SpmIpc<P, N, Proc>,
    connection: Connection,
    r: Result<(usize, bool), StatusCode>,
) -> bool {
    &&& after.procs() == before.procs()
    &&& after.platform_view() == before.platform_view()
    &&& match spec_first_with_handle(before.procs(), connection.msg.handle, 0) {
        None => r == Err::<(usize, bool), StatusCode>(StatusCode::NotSupported) && after.stack() == before.stack()
            && after.started() == before.started(),
        Some(i) => if before.stack().top >= MAX_CONNECTIONS {
            r == Err::<(usize, bool), StatusCode>(StatusCode::InsufficientMemory) && after.stack() == before.stack()
                && after.started() == before.started()
        } else {
            r == Ok::<(usize, bool), StatusCode>((i, !before.started()[i as int])) && after.stack() == spec_push(
                before.stack(),
                connection,
            ) && after.started() == before.started().update(i as int, true)
        },
    }
}

/// The index of the first of `processes` that provides `handle`.
pub fn find_process<Proc: IpcProcess>(processes: &[Proc], handle: ServiceHandle) -> (r: Option<usize>)
    ensures
        r == spec_first_with_handle(processes@, handle, 0),
{
    let mut i: usize = 0;
    while i < processes.len()
        invariant
            0 <= i <= processes@.len(),
            spec_first_with_handle(processes@, handle, 0) == spec_first_with_handle(processes@, handle, i as int),
        decreases processes@.len() - i,
    {
        if processes[i].handle() == handle {
            return Some(i);
        }
        i = i + 1;
    }
    None
}

/// Starts a call as the manager does when its state sits behind a lock:
/// the service is looked up among `processes` first (`NotSupported` if no
/// process provides it), then the state is needed; `spm` is `None` when its
/// lock is held elsewhere, and the call is then refused with
/// `ConnectionBusy`. Otherwise the call starts as `enter_call` says.
pub fn begin_call<P: IpcPlatform, const N: usize, Proc: IpcProcess>(
    processes: &[Proc],
    spm: Option<&mut SpmIpc<P, N, Proc>>,
    connection: &Connection,
) -> (r: Result<(usize, bool), StatusCode>)
    requires
        match spm {
            Some(s) => s.wf() && s.procs() == processes@,
            None => true,
        },
    ensures
        spec_first_with_handle(processes@, connection.msg.handle, 0) is None ==> r == Err::<
            (usize, bool),
            StatusCode,
        >(StatusCode::NotSupported),
        spec_first_with_handle(processes@, connection.msg.handle, 0) is Some && spm is None ==> r == Err::<
            (usize, bool),
            StatusCode,
        >(StatusCode::ConnectionBusy),
        match spm {
            Some(s) => {
                &&& final(s).wf()
                &&& spec_first_with_handle(processes@, connection.msg.handle, 0) is None ==> *final(s) == *s
                &&& spec_first_with_handle(processes@, connection.msg.handle, 0) is Some ==> spec_enter_call(
                    *s,
                    *final(s),
                    *connection,
                    r,
                )
            },
            None => true,
        },
{
    match find_process(processes, connection.msg.handle) {
        Some(_) => {},
        None => {
            return Err(StatusCode::NotSupported);
        },
    }
    match spm {
        Some(s) => s.enter_call(connection),
        None => Err(StatusCode::ConnectionBusy),
    }
}

/// The regions of the first `n` vectors of one side include, for each of
/// them that is mapped, not released and sized, its rounded region with the
/// side's permissions.
proof fn lemma_lent_regions_cover(
    mapped: Seq<bool>,
    unmapped: Seq<bool>,
    sizes: Seq<MaybeUsize>,
    bases: Seq<usize>,
    permissions: MpuPermissions,
    n: int,
    i: int,
)
    requires
        0 <= i < n,
        mapped[i],
        !unmapped[i],
        sizes[i].spec_option() is Some,
        spec_vec_region(bases[i], sizes[i].spec_option()->0, permissions) is Some,
    ensures
        spec_lent_regions(mapped, unmapped, sizes, bases, permissions, n).contains(
            spec_vec_region(bases[i], sizes[i].spec_option()->0, permissions)->0,
        ),
    decreases n,
{
    let prev = spec_lent_regions(mapped, unmapped, sizes, bases, permissions, n - 1);
    let last = spec_lent_vec_region(mapped[n - 1], unmapped[n - 1], sizes[n - 1], bases[n - 1], permissions);
    let r = spec_vec_region(bases[i], sizes[i].spec_option()->0, permissions)->0;
    if i < n - 1 {
        lemma_lent_regions_cover(mapped, unmapped, sizes, bases, permissions, n - 1, i);
        let k = choose|k: int| 0 <= k < prev.len() && prev[k] == r;
        assert((prev + last)[k] == r);
    } else {
        assert((prev + last)[prev.len() as int] == r);
    }
}

/// A service runs with the vectors its active call lends it: for each
/// vector that is mapped and not yet released, the regions of the process
/// serving the innermost call hold that vector's rounded region, read-only
/// (never executable) for an input vector and read-write (never executable)
/// for an output vector.
pub proof fn law_lent_vectors_keep_their_access<P: IpcPlatform, const N: usize, Proc: IpcProcess>(
    spm: SpmIpc<P, N, Proc>,
    index: usize,
    custom: Seq<CustomMpuRegion>,
    i: int,
)
    requires
        spm.spec_regions(index, custom) is Some,
        spec_peek(spm.stack()) is Ok,
        spec_first_with_handle(spm.procs(), spec_peek(spm.stack())->Ok_0.msg.handle, 0) == Some(index),
        0 <= i < PSA_MAX_IOVEC,
    ensures
        ({
            let c = spec_peek(spm.stack())->Ok_0@;
            c.outvec_mapped[i] && !c.outvec_unmapped[i] && c.out_size[i].spec_option() is Some && spec_vec_region(
                c.outvec_base[i],
                c.out_size[i].spec_option()->0,
                MpuPermissions::ReadWriteXN,
            ) is Some ==> spm.spec_regions(index, custom)->0.contains(
                spec_vec_region(c.outvec_base[i], c.out_size[i].spec_option()->0, MpuPermissions::ReadWriteXN)->0,
            )
        }),
        ({
            let c = spec_peek(spm.stack())->Ok_0@;
            c.invec_mapped[i] && !c.invec_unmapped[i] && c.in_size[i].spec_option() is Some && spec_vec_region(
                c.invec_base[i],
                c.in_size[i].spec_option()->0,
                MpuPermissions::ReadXN,
            ) is Some ==> spm.spec_regions(index, custom)->0.contains(
                spec_vec_region(c.invec_base[i], c.in_size[i].spec_option()->0, MpuPermissions::ReadXN)->0,
            )
        }),
{
    let c = spec_peek(spm.stack())->Ok_0@;
    let head = spec_image_regions(spm.procs()[index as int].spec_vectors()->0) + custom.map_values(
        |w: CustomMpuRegion| spec_custom_region(w),
    );
    let ins = spec_lent_regions(c.invec_mapped, c.invec_unmapped, c.in_size, c.invec_base, MpuPermissions::ReadXN, 4);
    let outs = spec_lent_regions(
        c.outvec_mapped,
        c.outvec_unmapped,
        c.out_size,
        c.outvec_base,
        MpuPermissions::ReadWriteXN,
        4,
    );
    let all = spm.spec_regions(index, custom)->0;
    assert(all == head + (ins + outs)) by {
        assert(head + spec_connection_regions(c) =~= head + (ins + outs));
    }
    if c.outvec_mapped[i] && !c.outvec_unmapped[i] && c.out_size[i].spec_option() is Some && spec_vec_region(
        c.outvec_base[i],
        c.out_size[i].spec_option()->0,
        MpuPermissions::ReadWriteXN,
    ) is Some {
        lemma_lent_regions_cover(
            c.outvec_mapped,
            c.outvec_unmapped,
            c.out_size,
            c.outvec_base,
            MpuPermissions::ReadWriteXN,
            4,
            i,
        );
        let r = spec_vec_region(c.outvec_base[i], c.out_size[i].spec_option()->0, MpuPermissions::ReadWriteXN)->0;
        let k = choose|k: int| 0 <= k < outs.len() && outs[k] == r;
        assert(all[head.len() + ins.len() + k] == r);
    }
    if c.invec_mapped[i] && !c.invec_unmapped[i] && c.in_size[i].spec_option() is Some && spec_vec_region(
        c.invec_base[i],
        c.in_size[i].spec_option()->0,
        MpuPermissions::ReadXN,
    ) is Some {
        lemma_lent_regions_cover(
            c.invec_mapped,
            c.invec_unmapped,
            c.in_size,
            c.invec_base,
            MpuPermissions::ReadXN,
            4,
            i,
        );
        let r = spec_vec_region(c.invec_base[i], c.in_size[i].spec_option()->0, MpuPermissions::ReadXN)->0;
        let k = choose|k: int| 0 <= k < ins.len() && ins[k] == r;
        assert(all[head.len() + k] == r);
    }
}

/// Ending a call resumes the one it interrupted: after a push and the pop
/// that ends it, the innermost call is the one that was innermost before.
pub proof fn law_ipc_call_resumes_caller(m: StackModel, c: Connection)
    requires
        m.slots.len() == MAX_CONNECTIONS,
        m.top < MAX_CONNECTIONS,
        spec_unused_slots_empty(m),
    ensures
        spec_pop(spec_push(m, c)) == m,
        spec_peek(spec_pop(spec_push(m, c))) == spec_peek(m),
{
    assert(spec_pop(spec_push(m, c)).slots =~= m.slots);
}

impl<P: IpcPlatform, const N: usize, Proc: IpcProcess> MemoryPermission for SpmIpc<P, N, Proc> {
    open spec fn spec_permits(&self, base: usize, len: usize, is_write: bool, caller: CallerAttributes) -> bool {
        self.platform_view().spec_permits(base, len, is_write, caller)
    }

    fn has_real_permission(&self, base: usize, len: usize, is_write: bool, caller: CallerAttributes) -> (r: bool) {
        self.platform.has_permission_on_memory(base, len, is_write, caller)
    }
}

/// A vector marked mapped (on a call whose record says how long it is)
/// gets the region that covers it, and a released one gets none.
pub proof fn law_mapping_decides_region(v: ConnectionView, is_outvec: bool, idx: int, mapped: bool)
    requires
        0 <= idx < PSA_MAX_IOVEC,
        v.invec_mapped.len() == PSA_MAX_IOVEC,
        v.invec_unmapped.len() == PSA_MAX_IOVEC,
        v.outvec_mapped.len() == PSA_MAX_IOVEC,
        v.outvec_unmapped.len() == PSA_MAX_IOVEC,
    ensures
        ({
            let w = spec_set_mapping(v, is_outvec, idx, mapped);
            let region = if is_outvec {
                spec_lent_vec_region(
                    w.outvec_mapped[idx],
                    w.outvec_unmapped[idx],
                    w.out_size[idx],
                    w.outvec_base[idx],
                    MpuPermissions::ReadWriteXN,
                )
            } else {
                spec_lent_vec_region(
                    w.invec_mapped[idx],
                    w.invec_unmapped[idx],
                    w.in_size[idx],
                    w.invec_base[idx],
                    MpuPermissions::ReadXN,
                )
            };
            let size = if is_outvec { v.out_size[idx] } else { v.in_size[idx] };
            let base = if is_outvec { v.outvec_base[idx] } else { v.invec_base[idx] };
            let perm = if is_outvec { MpuPermissions::ReadWriteXN } else { MpuPermissions::ReadXN };
            &&& !mapped ==> region == Seq::<MpuRegion>::empty()
            &&& mapped && size.spec_option() is Some && spec_vec_region(base, size.spec_option()->0, perm) is Some
                ==> region == seq![spec_vec_region(base, size.spec_option()->0, perm)->0]
        }),
{
}

/// The first process found with a handle is one of the processes and has it.
pub proof fn lemma_first_with_handle_in_range<Proc: IpcProcess>(procs: Seq<Proc>, handle: ServiceHandle, from: int)
    requires
        procs.len() <= usize::MAX,
    ensures
        spec_first_with_handle(procs, handle, from) matches Some(i) ==> from <= i < procs.len()
            && procs[i as int].spec_handle() == handle,
    decreases procs.len() - from,
{
    if from < 0 || from >= procs.len() {
    } else if procs[from].spec_handle() == handle {
    } else {
        lemma_first_with_handle_in_range(procs, handle, from + 1);
    }
}

} // verus!
