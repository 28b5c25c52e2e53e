use vstd::prelude::*;

use crate::spm_api::{CallerAttributes, MaybeUsize, PsaMsg};
use crate::types::ServiceHandle;

verus! {

/// Number of nested calls the partition manager tracks at once.
pub const MAX_CONNECTIONS: usize = 4;

/// Maximum number of input plus output vectors in one call.
pub const PSA_MAX_IOVEC: usize = 4;

/// The partition manager's record of one call in progress: the message and,
/// per vector, its address and how far it has been mapped, read or written.
#[derive(Clone, Copy, Debug)]
pub struct Connection {
    pub msg: PsaMsg,
    pub invec_base: [usize; PSA_MAX_IOVEC],
    pub invec_accessed: [usize; PSA_MAX_IOVEC],
    pub invec_mapped: [bool; PSA_MAX_IOVEC],
    pub invec_unmapped: [bool; PSA_MAX_IOVEC],
    pub outvec_base: [usize; PSA_MAX_IOVEC],
    pub outvec_written: [usize; PSA_MAX_IOVEC],
    pub outvec_mapped: [bool; PSA_MAX_IOVEC],
    pub outvec_unmapped: [bool; PSA_MAX_IOVEC],
}

/// The abstract value of a connection record: every array as a sequence.
pub struct ConnectionView {
    pub handle: ServiceHandle,
    pub msg_type: i32,
    pub caller: CallerAttributes,
    pub in_size: Seq<MaybeUsize>,
    pub out_size: Seq<MaybeUsize>,
    pub invec_base: Seq<usize>,
    pub invec_accessed: Seq<usize>,
    pub invec_mapped: Seq<bool>,
    pub invec_unmapped: Seq<bool>,
    pub outvec_base: Seq<usize>,
    pub outvec_written: Seq<usize>,
    pub outvec_mapped: Seq<bool>,
    pub outvec_unmapped: Seq<bool>,
}

impl View for Connection {
    type V = ConnectionView;

    open spec fn view(&self) -> ConnectionView {
        ConnectionView {
            handle: self.msg.handle,
            msg_type: self.msg.msg_type,
            caller: self.msg.caller,
            in_size: self.msg.in_size@,
            out_size: self.msg.out_size@,
            invec_base: self.invec_base@,
            invec_accessed: self.invec_accessed@,
            invec_mapped: self.invec_mapped@,
            invec_unmapped: self.invec_unmapped@,
            outvec_base: self.outvec_base@,
            outvec_written: self.outvec_written@,
            outvec_mapped: self.outvec_mapped@,
            outvec_unmapped: self.outvec_unmapped@,
        }
    }
}

#[derive(Clone, Copy, Debug, PartialEq, Eq, Structural)]
pub enum SpmError {
    MutexBusy,
    ConnectionStackFull,
    EmptyConnectionStack,
    NoActiveConnection,
    CorruptedConnectionStack,
}

/// The abstract state of a connection stack: its slots and how many are in use.
pub struct StackModel {
    pub slots: Seq<Option<Connection>>,
    pub top: nat,
}

/// The stack after pushing `c` (full stacks are left unchanged).
pub open spec fn spec_push(m: StackModel, c: Connection) -> StackModel {
    if m.top >= MAX_CONNECTIONS {
        m
    } else {
        StackModel { slots: m.slots.update(m.top as int, Some(c)), top: m.top + 1 }
    }
}

/// The result of taking out the innermost connection.
pub open spec fn spec_take_result(m: StackModel) -> Result<(usize, Connection), SpmError> {
    if m.top == 0 {
        Err(SpmError::NoActiveConnection)
    } else if m.slots[m.top - 1] is None {
        Err(SpmError::CorruptedConnectionStack)
    } else {
        Ok(((m.top - 1) as usize, m.slots[m.top - 1]->0))
    }
}

/// The stack after taking out the innermost connection.
pub open spec fn spec_take(m: StackModel) -> StackModel {
    if spec_take_result(m) is Ok {
        StackModel { slots: m.slots.update(m.top - 1, None), top: m.top }
    } else {
        m
    }
}

/// Whether a connection can be put back into slot `index`.
pub open spec fn spec_can_restore(m: StackModel, index: usize) -> bool {
    index < MAX_CONNECTIONS && m.slots[index as int] is None
}

/// The stack after putting `c` back into slot `index`.
pub open spec fn spec_restore(m: StackModel, index: usize, c: Connection) -> StackModel {
    if spec_can_restore(m, index) {
        StackModel { slots: m.slots.update(index as int, Some(c)), top: m.top }
    } else {
        m
    }
}

/// The stack after dropping the innermost connection.
pub open spec fn spec_pop(m: StackModel) -> StackModel {
    if m.top == 0 {
        m
    } else {
        StackModel { slots: m.slots.update(m.top - 1, None), top: (m.top - 1) as nat }
    }
}

/// The innermost connection, as `peek_active_connection` reports it.
pub open spec fn spec_peek(m: StackModel) -> Result<Connection, SpmError> {
    if m.top == 0 {
        Err(SpmError::EmptyConnectionStack)
    } else if m.slots[m.top - 1] is None {
        Err(SpmError::CorruptedConnectionStack)
    } else {
        Ok(m.slots[m.top - 1]->0)
    }
}

/// A well-formed stack model: four slots, at most four in use.
pub open spec fn spec_stack_wf(m: StackModel) -> bool {
    m.slots.len() == MAX_CONNECTIONS && m.top <= MAX_CONNECTIONS
}

/// Every slot at or above the depth is empty.
pub open spec fn spec_unused_slots_empty(m: StackModel) -> bool {
    forall|i: int| m.top <= i < m.slots.len() ==> #[trigger] m.slots[i] is None
}

/// The stack of active connections: slot `i` holds the call made at nesting
/// depth `i`; `top_connection` slots are in use.
pub struct ConnectionArray {
    connections: [Option<Connection>; MAX_CONNECTIONS],
    top_connection: usize,
}

impl View for ConnectionArray {
    type V = StackModel;

    closed spec fn view(&self) -> StackModel {
        StackModel { slots: self.connections@, top: self.top_connection as nat }
    }
}

impl ConnectionArray {
    /// The stack is well formed.
    pub open spec fn wf(&self) -> bool {
        spec_stack_wf(self@)
    }

    /// An empty stack.
    pub fn new() -> (r: ConnectionArray)
        ensures
            r.wf(),
            r@.top == 0,
            r@.slots == Seq::new(MAX_CONNECTIONS as nat, |i: int| None::<Connection>),
    {
        let r = ConnectionArray { connections: [None, None, None, None], top_connection: 0 };
        assert(r@.slots =~= Seq::new(MAX_CONNECTIONS as nat, |i: int| None::<Connection>));
        r
    }

    /// How many calls are in progress.
    pub fn depth(&self) -> (r: usize)
        ensures
            r == self@.top,
    {
        self.top_connection
    }

    /// Pushes `connection` as the new innermost call.
    pub fn add_connection(&mut self, connection: Connection) -> (r: Result<(), SpmError>)
        requires
            old(self).wf(),
        ensures
            final(self).wf(),
            final(self)@ == spec_push(old(self)@, connection),
            r == (if old(self)@.top >= MAX_CONNECTIONS {
                Err(SpmError::ConnectionStackFull)
            } else {
                Ok(())
            }),
    {
        if self.top_connection >= MAX_CONNECTIONS {
            return Err(SpmError::ConnectionStackFull);
        }
        self.connections[self.top_connection] = Some(connection);
        self.top_connection = self.top_connection + 1;
        Ok(())
    }

    /// Takes the innermost connection out of its slot, leaving the slot
    /// empty and the depth unchanged, so that it can be worked on and put back.
    pub fn take_active_connection(&mut self) -> (r: Result<(usize, Connection), SpmError>)
        requires
            old(self).wf(),
        ensures
            final(self).wf(),
            r == spec_take_result(old(self)@),
            final(self)@ == spec_take(old(self)@),
    {
        if self.top_connection == 0 {
            return Err(SpmError::NoActiveConnection);
        }
        let index = self.top_connection - 1;
        match self.connections[index] {
            Some(c) => {
                self.connections[index] = None;
                Ok((index, c))
            },
            None => Err(SpmError::CorruptedConnectionStack),
        }
    }

    /// Puts a connection back into the empty slot `index`.
    pub fn restore_active_connection(&mut self, index: usize, connection: Connection) -> (r: Result<
        (),
        SpmError,
    >)
        requires
            old(self).wf(),
        ensures
            final(self).wf(),
            final(self)@ == spec_restore(old(self)@, index, connection),
            r == (if spec_can_restore(old(self)@, index) {
                Ok(())
            } else {
                Err(SpmError::CorruptedConnectionStack)
            }),
    {
        if index >= MAX_CONNECTIONS {
            return Err(SpmError::CorruptedConnectionStack);
        }
        if self.connections[index].is_some() {
            return Err(SpmError::CorruptedConnectionStack);
        }
        self.connections[index] = Some(connection);
        Ok(())
    }

    /// Drops the innermost connection; does nothing on an empty stack.
    pub fn pop_connection(&mut self)
        requires
            old(self).wf(),
        ensures
            final(self).wf(),
            final(self)@ == spec_pop(old(self)@),
    {
        if self.top_connection > 0 {
            self.top_connection = self.top_connection - 1;
            self.connections[self.top_connection] = None;
        }
    }

    /// The innermost connection.
    pub fn peek_active_connection(&self) -> (r: Result<Connection, SpmError>)
        requires
            self.wf(),
        ensures
            r == spec_peek(self@),
    {
        if self.top_connection == 0 {
            return Err(SpmError::EmptyConnectionStack);
        }
        let index = self.top_connection - 1;
        match self.connections[index] {
            Some(c) => Ok(c),
            None => Err(SpmError::CorruptedConnectionStack),
        }
    }
}

/// Last in, first out: right after a push, the innermost connection is the
/// one pushed.
pub proof fn law_push_then_peek(m: StackModel, c: Connection)
    requires
        spec_stack_wf(m),
        m.top < MAX_CONNECTIONS,
    ensures
        spec_peek(spec_push(m, c)) == Ok::<Connection, SpmError>(c),
        spec_take_result(spec_push(m, c)) == Ok::<(usize, Connection), SpmError>((m.top as usize, c)),
{
}

/// Dropping the connection just pushed gives back the stack as it was, when
/// the unused slots were empty.
pub proof fn law_push_then_pop(m: StackModel, c: Connection)
    requires
        spec_stack_wf(m),
        spec_unused_slots_empty(m),
        m.top < MAX_CONNECTIONS,
    ensures
        spec_pop(spec_push(m, c)) == m,
{
    assert(spec_pop(spec_push(m, c)).slots =~= m.slots);
}

/// Taking out the innermost connection and putting it back where it came
/// from leaves the stack as it was.
pub proof fn law_take_then_restore(m: StackModel)
    requires
        spec_stack_wf(m),
        spec_take_result(m) is Ok,
    ensures
        ({
            let (index, c) = spec_take_result(m)->Ok_0;
            spec_can_restore(spec_take(m), index) && spec_restore(spec_take(m), index, c) == m
        }),
{
    let (index, c) = spec_take_result(m)->Ok_0;
    assert(spec_restore(spec_take(m), index, c).slots =~= m.slots);
}

/// Every operation keeps a stack well formed and its unused slots empty
/// (putting back a connection only ever fills a slot below the depth when
/// it was taken from there).
pub proof fn law_ops_keep_unused_slots_empty(m: StackModel, c: Connection)
    requires
        spec_stack_wf(m),
        spec_unused_slots_empty(m),
    ensures
        spec_stack_wf(spec_push(m, c)) && spec_unused_slots_empty(spec_push(m, c)),
        spec_stack_wf(spec_pop(m)) && spec_unused_slots_empty(spec_pop(m)),
        spec_stack_wf(spec_take(m)) && spec_unused_slots_empty(spec_take(m)),
{
}

} // verus!
