//! The function-call partition manager: services run as ordinary calls and
//! the manager keeps the stack of calls in progress.
use vstd::prelude::*;

use crate::spm::connection_stack::{
    spec_take_result, spec_pop, spec_push, spec_stack_wf, spec_unused_slots_empty, Connection, ConnectionArray,
    StackModel, SpmError, MAX_CONNECTIONS,
};
use crate::spm_api::connection::MemoryPermission;
use crate::spm_api::{CallerAttributes, PsaMsg};
use crate::status::StatusCode;
use crate::types::{FFInVec, FFOutVec, ServiceHandle};

verus! {

/// What a board provides to the function-call partition manager.
pub trait SfnPlatform {
    /// The board's memory-protection policy.
    spec fn spec_permits(&self, base: usize, len: usize, is_write: bool, caller: CallerAttributes) -> bool;

    /// The version of the service `handle` names, if the board has it.
    spec fn spec_version(&self, handle: ServiceHandle) -> Option<u32>;

    /// Whether `r` is an answer the service that `msg` is addressed to may
    /// give to it when it runs under the connection stack `stack` (a
    /// service's answer may depend on more than these, such as the bytes its
    /// vectors point at).
    spec fn spec_may_answer(&self, stack: StackModel, msg: PsaMsg, r: Result<(), StatusCode>) -> bool;

    /// Runs the service a message is addressed to, under the stack of calls
    /// in progress, whose innermost connection is the message's. The service
    /// reaches its vectors through that connection and may change it (mark
    /// vectors mapped, released or written), and its own nested calls push
    /// and pop above it; it leaves the stack as deep as it found it, with
    /// the outer calls untouched.
    fn call(&self, connections: &mut ConnectionArray, msg: PsaMsg) -> (r: Result<(), StatusCode>)
        requires
            old(connections).wf(),
            spec_unused_slots_empty(old(connections)@),
            old(connections)@.top > 0,
        ensures
            final(connections).wf(),
            spec_unused_slots_empty(final(connections)@),
            final(connections)@.top == old(connections)@.top,
            forall|j: int|
                0 <= j < old(connections)@.top - 1 ==> final(connections)@.slots[j] == old(connections)@.slots[j],
            self.spec_may_answer(old(connections)@, msg, r),
    ;

    /// Whether `caller` may access `len` bytes at `base`.
    fn has_permission_on_memory(&self, base: usize, len: usize, is_write: bool, caller: CallerAttributes) -> (r: bool)
        ensures
            r == self.spec_permits(base, len, is_write, caller),
    ;

    /// The version of the service `handle` names.
    fn version(&self, handle: ServiceHandle) -> (r: Option<u32>)
        ensures
            r == self.spec_version(handle),
    ;

    /// Whether `v` are the `n` input-vector descriptors found at `addr` in
    /// the caller's memory.
    spec fn spec_reads_in_vecs(&self, addr: usize, n: usize, v: Vec<FFInVec>) -> bool;

    /// Whether `v` are the `n` output-vector descriptors found at `addr` in
    /// the caller's memory.
    spec fn spec_reads_out_vecs(&self, addr: usize, n: usize, v: Vec<FFOutVec>) -> bool;

    /// Reads the `n` input-vector descriptors the caller placed at `addr`.
    fn read_in_vecs(&self, addr: usize, n: usize) -> (r: Vec<FFInVec>)
        ensures
            r.len() == n,
            self.spec_reads_in_vecs(addr, n, r),
    ;

    /// Reads the `n` output-vector descriptors the caller placed at `addr`.
    fn read_out_vecs(&self, addr: usize, n: usize) -> (r: Vec<FFOutVec>)
        ensures
            r.len() == n,
            self.spec_reads_out_vecs(addr, n, r),
    ;
}

/// The function-call partition manager over a board's platform.
pub struct SpmFn<P: SfnPlatform> {
    pub connections: ConnectionArray,
    pub platform: P,
}

impl<P: SfnPlatform> MemoryPermission for SpmFn<P> {
    open spec fn spec_permits(&self, base: usize, len: usize, is_write: bool, caller: CallerAttributes) -> bool {
        self.platform.spec_permits(base, len, is_write, caller)
    }

    fn has_real_permission(&self, base: usize, len: usize, is_write: bool, caller: CallerAttributes) -> (r: bool) {
        self.platform.has_permission_on_memory(base, len, is_write, caller)
    }
}

impl<P: SfnPlatform> SpmFn<P> {
    /// The connection stack.
    pub open spec fn stack(&self) -> StackModel {
        self.connections@
    }

    /// The stack is well formed and its unused slots are empty.
    pub open spec fn wf(&self) -> bool {
        self.connections.wf() && spec_unused_slots_empty(self.stack())
    }

    pub fn new(platform: P) -> (r: SpmFn<P>)
        ensures
            r.wf(),
            r.connections.wf(),
            r.stack().top == 0,
            r.platform == platform,
    {
        SpmFn { connections: ConnectionArray::new(), platform }
    }

    /// Pushes a connection.
    pub fn add_connection(&mut self, connection: Connection) -> (r: Result<(), SpmError>)
        requires
            old(self).wf(),
        ensures
            final(self).wf(),
            final(self).platform == old(self).platform,
            final(self).stack() == spec_push(old(self).stack(), connection),
            r == (if old(self).stack().top >= MAX_CONNECTIONS {
                Err(SpmError::ConnectionStackFull)
            } else {
                Ok(())
            }),
    {
        self.connections.add_connection(connection)
    }

    /// Drops the innermost connection.
    pub fn pop_connection(&mut self)
        requires
            old(self).wf(),
        ensures
            final(self).wf(),
            final(self).platform == old(self).platform,
            final(self).stack() == spec_pop(old(self).stack()),
    {
        self.connections.pop_connection();
    }

    /// Runs one call: the connection is pushed, the service runs under the
    /// stack with that connection innermost, and the connection is dropped
    /// afterwards, so the stack is as before once the call returns. Returns
    /// the service's answer to the connection's message under that stack.
    /// The stack must have room for the call.
    pub fn call(&mut self, connection: Connection) -> (r: Result<(), StatusCode>)
        requires
            old(self).wf(),
            old(self).stack().top < MAX_CONNECTIONS,
        ensures
            final(self).wf(),
            final(self).stack() == old(self).stack(),
            final(self).platform == old(self).platform,
            old(self).platform.spec_may_answer(spec_push(old(self).stack(), connection), connection.msg, r),
    {
        let msg = connection.msg;
        let pushed = self.add_connection(connection);
        assert(pushed is Ok);
        let result = self.platform.call(&mut self.connections, msg);
        self.pop_connection();
        proof {
            assert(self.stack().slots =~= old(self).stack().slots);
        }
        result
    }

    /// Runs `f` on the innermost connection, which is taken out of its slot
    /// for the length of the call and put back afterwards as `f` left it;
    /// returns `f`'s result. Fails, with `f` not run and the stack
    /// unchanged, when there is no innermost connection.
    pub fn with_active_connection<R, F: FnOnce(&mut Connection) -> R>(&mut self, f: F) -> (r: Result<R, SpmError>)
        requires
            old(self).wf(),
            forall|a: (&mut Connection,)| f.requires(a),
        ensures
            final(self).wf(),
            final(self).platform == old(self).platform,
            final(self).stack().top == old(self).stack().top,
            match spec_take_result(old(self).stack()) {
                Err(e) => r == Err::<R, SpmError>(e) && final(self).stack() == old(self).stack(),
                Ok((index, c)) => {
                    &&& r matches Ok(res) && final(self).stack().slots[index as int] matches Some(c2) && exists|
                        m: &mut Connection,
                    | *m == c && *final(m) == c2 && f.ensures((m,), res)
                    &&& forall|j: int| 0 <= j < MAX_CONNECTIONS && j != index ==> final(self).stack().slots[j] == old(
                        self,
                    ).stack().slots[j]
                },
            },
    {
        let (index, mut connection) = match self.connections.take_active_connection() {
            Ok(t) => t,
            Err(e) => {
                return Err(e);
            },
        };
        let result = f(&mut connection);
        let restored = self.connections.restore_active_connection(index, connection);
        proof {
            assert(restored is Ok);
            assert(self.stack().slots =~= old(self).stack().slots.update(index as int, Some(connection)));
        }
        Ok(result)
    }

    /// The version of a service.
    pub fn version(&self, handle: ServiceHandle) -> (r: Option<u32>)
        ensures
            r == self.platform.spec_version(handle),
    {
        self.platform.version(handle)
    }
}

} // verus!
