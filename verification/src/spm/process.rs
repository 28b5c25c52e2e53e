//! Services that run as separate unprivileged binaries: their memory
//! layout, the message mailbox on their stack and the exception frame that
//! starts them.
use vstd::prelude::*;

use crate::types::ServiceHandle;

verus! {

/// Words in the exception frame that enters a service (r0-r3, r12, lr, pc,
/// xPSR).
pub const EXCEPTION_FRAME_WORDS: usize = 8;

/// Return address placed in the frame: a service must leave through the
/// exit supervisor call, never by returning.
pub const DUMMY_RETURN_ADDRESS: usize = 0xFFFF_FFFF;

/// Program status placed in the frame: only the Thumb bit.
pub const THUMB_XPSR: usize = 0x0100_0000;

/// Where a service binary lives, as the addresses its image records.
#[derive(Clone, Copy, Debug, PartialEq, Eq, Structural)]
pub struct ServiceVectors {
    pub version: u32,
    /// Address of the one-time initialisation entry.
    pub init_entry: usize,
    /// Address of the call entry, which takes the staged message.
    pub call_entry: usize,
    /// Start of the ROM window holding code and read-only data.
    pub rom_start: usize,
    /// Exclusive end of the ROM window.
    pub rom_limit: usize,
    /// Start of the RAM window holding data, bss and stack.
    pub ram_start: usize,
    /// Exclusive end of the RAM window.
    pub ram_limit: usize,
    /// Lowest address the service's stack may grow to.
    pub stack_limit: usize,
    /// Top of the service's stack (8-byte aligned).
    pub stack_top: usize,
}

/// A window of the 32-bit address space.
#[derive(Clone, Copy, Debug, PartialEq, Eq, Structural)]
pub struct MemoryRegion {
    pub base: usize,
    pub size: u32,
}

/// `limit - start` on 32-bit addresses, or 0 for a reversed window.
pub open spec fn spec_window_size(start: usize, limit: usize) -> u32 {
    if (limit as u32) >= (start as u32) {
        ((limit as u32) - (start as u32)) as u32
    } else {
        0
    }
}

impl ServiceVectors {
    /// The ROM window; a reversed window has size 0.
    pub fn rom_region(&self) -> (r: MemoryRegion)
        ensures
            r.base == self.rom_start,
            r.size == spec_window_size(self.rom_start, self.rom_limit),
    {
        MemoryRegion { base: self.rom_start, size: (self.rom_limit as u32).saturating_sub(self.rom_start as u32) }
    }

    /// The RAM window; a reversed window has size 0.
    pub fn ram_region(&self) -> (r: MemoryRegion)
        ensures
            r.base == self.ram_start,
            r.size == spec_window_size(self.ram_start, self.ram_limit),
    {
        MemoryRegion { base: self.ram_start, size: (self.ram_limit as u32).saturating_sub(self.ram_start as u32) }
    }
}

/// What the partition manager needs to know of a process it dispatches to.
pub trait IpcProcess {
    spec fn spec_handle(&self) -> ServiceHandle;

    spec fn spec_vectors(&self) -> Option<ServiceVectors>;

    spec fn spec_version(&self) -> u32;

    /// The service the process provides.
    fn handle(&self) -> (r: ServiceHandle)
        ensures
            r == self.spec_handle(),
    ;

    /// The process's memory layout, when it is a separate binary.
    fn get_vectors(&self) -> (r: Option<ServiceVectors>)
        ensures
            r == self.spec_vectors(),
    ;

    /// The version of the service.
    fn version(&self) -> (r: u32)
        ensures
            r == self.spec_version(),
    ;
}

/// A service loaded as a separate binary in flash.
#[derive(Clone, Copy, Debug)]
pub struct ServiceProcess {
    pub handle: ServiceHandle,
    pub vectors: ServiceVectors,
}

/// Where the message mailbox of a call goes: below the stack top, aligned
/// down, with room for an exception frame under it above the stack limit
/// and inside the service's RAM.
pub open spec fn spec_mailbox_fits(
    v: ServiceVectors,
    msg_size: usize,
    msg_align: usize,
    frame_size: usize,
) -> bool {
    &&& msg_size <= v.stack_top
    &&& {
        let mailbox = (v.stack_top - msg_size) as usize & !((msg_align - 1) as usize);
        &&& frame_size <= mailbox
        &&& mailbox - frame_size >= v.stack_limit
        &&& mailbox >= v.ram_start
        &&& mailbox + msg_size <= v.ram_limit
    }
}

impl ServiceProcess {
    /// A process for the service `handle` laid out as `vectors` says.
    pub fn new(handle: ServiceHandle, vectors: ServiceVectors) -> (r: Self)
        ensures
            r.handle == handle,
            r.vectors == vectors,
    {
        ServiceProcess { handle, vectors }
    }

    /// `addr` rounded down to a multiple of the power of two `align`.
    pub fn align_down(addr: usize, align: usize) -> (r: usize)
        requires
            align > 0,
            align & (align - 1) as usize == 0,
        ensures
            r == addr & !((align - 1) as usize),
            r <= addr,
            addr - r < align,
            r & ((align - 1) as usize) == 0,
    {
        let mask = align - 1;
        let r = addr & !mask;
        assert(r <= addr && addr - r == addr & mask && r & mask == 0) by (bit_vector)
            requires
                r == addr & !mask,
        ;
        assert(addr & mask <= mask) by (bit_vector);
        r
    }

    /// The address of the mailbox a message of `msg_size` bytes is staged
    /// in for a call: the stack top less the message, aligned down to
    /// `msg_align` (a power of two). The layout must leave room for it, for
    /// an `frame_size`-byte exception frame below it above the stack limit,
    /// and keep it inside the service's RAM.
    pub fn mailbox_address(vectors: &ServiceVectors, msg_size: usize, msg_align: usize, frame_size: usize) -> (r: usize)
        requires
            msg_align > 0,
            msg_align & (msg_align - 1) as usize == 0,
            spec_mailbox_fits(*vectors, msg_size, msg_align, frame_size),
        ensures
            r == (vectors.stack_top - msg_size) as usize & !((msg_align - 1) as usize),
            r + msg_size <= vectors.stack_top,
            r & ((msg_align - 1) as usize) == 0,
            r - frame_size >= vectors.stack_limit,
            vectors.ram_start <= r,
            r + msg_size <= vectors.ram_limit,
    {
        ServiceProcess::align_down(vectors.stack_top - msg_size, msg_align)
    }
}

impl IpcProcess for ServiceProcess {
    open spec fn spec_handle(&self) -> ServiceHandle {
        self.handle
    }

    open spec fn spec_vectors(&self) -> Option<ServiceVectors> {
        Some(self.vectors)
    }

    open spec fn spec_version(&self) -> u32 {
        self.vectors.version
    }

    fn handle(&self) -> (r: ServiceHandle) {
        self.handle
    }

    fn get_vectors(&self) -> (r: Option<ServiceVectors>) {
        Some(self.vectors)
    }

    fn version(&self) -> (r: u32) {
        self.vectors.version
    }
}

/// A service compiled into the partition manager's own image: it has no
/// memory layout of its own, and `service` is what the manager calls.
pub struct EmbeddedProcess<S> {
    pub handle: ServiceHandle,
    pub version: u32,
    pub service: S,
}

impl<S> EmbeddedProcess<S> {
    pub fn new(handle: ServiceHandle, version: u32, service: S) -> (r: Self)
        ensures
            r.handle == handle,
            r.version == version,
            r.service == service,
    {
        EmbeddedProcess { handle, version, service }
    }
}

impl<S> IpcProcess for EmbeddedProcess<S> {
    open spec fn spec_handle(&self) -> ServiceHandle {
        self.handle
    }

    open spec fn spec_vectors(&self) -> Option<ServiceVectors> {
        None
    }

    open spec fn spec_version(&self) -> u32 {
        self.version
    }

    fn handle(&self) -> (r: ServiceHandle) {
        self.handle
    }

    fn get_vectors(&self) -> (r: Option<ServiceVectors>) {
        None
    }

    fn version(&self) -> (r: u32) {
        self.version
    }
}

/// Bytes of the exception frame: eight machine words.
pub open spec fn spec_frame_bytes() -> int {
    EXCEPTION_FRAME_WORDS * (usize::BITS / 8) as int
}

/// The exception frame that starts unprivileged code at `fn_ptr` with `arg`
/// in r0: its base address (eight words under the stack top) and its words
/// r0, r1, r2, r3, r12, lr, pc, xPSR. The stack must have room for it above
/// its limit.
pub fn exception_frame(fn_ptr: usize, arg: usize, stack_limit: usize, stack_top: usize) -> (r: (usize, [usize; 8]))
    requires
        stack_top >= spec_frame_bytes(),
        stack_top - spec_frame_bytes() >= stack_limit,
    ensures
        r.0 == stack_top - spec_frame_bytes(),
        r.0 >= stack_limit,
        r.1@ == seq![arg, 0usize, 0usize, 0usize, 0usize, DUMMY_RETURN_ADDRESS, fn_ptr, THUMB_XPSR],
{
    let word_bytes: usize = (usize::BITS / 8) as usize;
    let frame_base = stack_top - EXCEPTION_FRAME_WORDS * word_bytes;
    let words = [arg, 0, 0, 0, 0, DUMMY_RETURN_ADDRESS, fn_ptr, THUMB_XPSR];
    assert(words@ =~= seq![arg, 0usize, 0usize, 0usize, 0usize, DUMMY_RETURN_ADDRESS, fn_ptr, THUMB_XPSR]);
    (frame_base, words)
}

} // verus!
