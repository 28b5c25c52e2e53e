//! The memory-protection regions a sandboxed service runs under: its code
//! and data windows, the devices it may touch, and the IO vectors the
//! partition manager lends it, rounded out to the 32-byte MPU granule.
use vstd::prelude::*;

use crate::spm::process::ServiceVectors;

verus! {

/// What a region lets unprivileged code do.
#[derive(Clone, Copy, Debug, PartialEq, Eq, Structural)]
pub enum MpuPermissions {
    /// Read and execute.
    ReadExecute,
    /// Read and write, never execute.
    ReadWriteXN,
    /// Read only, never execute.
    ReadXN,
}

/// One region to program into the MPU.
#[derive(Clone, Copy, Debug, PartialEq, Eq, Structural)]
pub struct MpuRegion {
    pub base: usize,
    pub size: usize,
    pub permissions: MpuPermissions,
}

/// The MPU's granule: region bounds are multiples of this many bytes.
pub const MPU_GRANULE: usize = 32;

/// Base of the TRNG block the crypto service reads.
pub const CRYPTOLITE_TRNG_BASE: usize = 0x4223_0000;

/// Size of the TRNG block.
pub const CRYPTOLITE_TRNG_SIZE: usize = 0x200;

/// Base of the eFuse control block the services read.
pub const EFUSE_CTL3_BASE: usize = 0x4261_0180;

/// Size of the eFuse control block.
pub const EFUSE_CTL3_SIZE: usize = 0x20;

/// `x` rounded down to the granule.
pub open spec fn spec_granule_floor(x: int) -> int {
    x - x % 32
}

/// `x` rounded up to the granule.
pub open spec fn spec_granule_ceil(x: int) -> int {
    spec_granule_floor(x + 31)
}

/// The length of the window `[start, limit)`; the window must not be
/// reversed.
pub fn region_len(start: usize, limit: usize, name: &str) -> (r: usize)
    requires
        start <= limit,
    ensures
        r == limit - start,
{
    limit - start
}

/// The region `vec_region` gives.
pub open spec fn spec_vec_region(base: usize, size: usize, permissions: MpuPermissions) -> Option<MpuRegion> {
    if size == 0 || base + size + 31 > usize::MAX {
        None
    } else {
        Some(
            MpuRegion {
                base: spec_granule_floor(base as int) as usize,
                size: (spec_granule_ceil(base + size) - spec_granule_floor(base as int)) as usize,
                permissions,
            },
        )
    }
}

/// The region that covers the `size` bytes at `base`, rounded out to the
/// granule, with the given permissions. An empty vector needs no region;
/// nor can one be given when rounding up would pass the end of the address
/// space.
pub fn vec_region(base: usize, size: usize, permissions: MpuPermissions) -> (r: Option<MpuRegion>)
    ensures
        r == spec_vec_region(base, size, permissions),
        r matches Some(reg) ==> reg.base <= base && base + size <= reg.base + reg.size && reg.base % 32 == 0
            && reg.size % 32 == 0,
{
    if size == 0 {
        return None;
    }
    if base > usize::MAX - size || base + size > usize::MAX - 31 {
        return None;
    }
    let aligned_base = base - base % 32;
    let end = base + size + 31;
    let aligned_end = end - end % 32;
    Some(MpuRegion { base: aligned_base, size: aligned_end - aligned_base, permissions })
}

/// The region a lent vector is mapped with: read-write for an output
/// vector, read-only for an input vector.
pub fn vec_mapping_region(is_outvec: bool, base: usize, size: usize) -> (r: Option<MpuRegion>)
    ensures
        r == spec_vec_region(base, size, if is_outvec { MpuPermissions::ReadWriteXN } else { MpuPermissions::ReadXN }),
{
    let permissions = if is_outvec {
        MpuPermissions::ReadWriteXN
    } else {
        MpuPermissions::ReadXN
    };
    vec_region(base, size, permissions)
}

/// The regions a flash process is configured with: its ROM window (read,
/// execute), its RAM window (read, write), the TRNG block (read, write) and
/// the eFuse control block (read only). Neither window may be reversed.
pub fn process_mpu_regions(vectors: &ServiceVectors) -> (r: Vec<MpuRegion>)
    requires
        vectors.rom_start <= vectors.rom_limit,
        vectors.ram_start <= vectors.ram_limit,
    ensures
        r@ == seq![
            MpuRegion {
                base: vectors.rom_start,
                size: (vectors.rom_limit - vectors.rom_start) as usize,
                permissions: MpuPermissions::ReadExecute,
            },
            MpuRegion {
                base: vectors.ram_start,
                size: (vectors.ram_limit - vectors.ram_start) as usize,
                permissions: MpuPermissions::ReadWriteXN,
            },
            MpuRegion { base: CRYPTOLITE_TRNG_BASE, size: CRYPTOLITE_TRNG_SIZE, permissions: MpuPermissions::ReadWriteXN },
            MpuRegion { base: EFUSE_CTL3_BASE, size: EFUSE_CTL3_SIZE, permissions: MpuPermissions::ReadXN },
        ],
{
    let rom_size = region_len(vectors.rom_start, vectors.rom_limit, "ROM");
    let ram_size = region_len(vectors.ram_start, vectors.ram_limit, "RAM");
    let mut regions: Vec<MpuRegion> = Vec::new();
    regions.push(MpuRegion { base: vectors.rom_start, size: rom_size, permissions: MpuPermissions::ReadExecute });
    regions.push(MpuRegion { base: vectors.ram_start, size: ram_size, permissions: MpuPermissions::ReadWriteXN });
    regions.push(
        MpuRegion { base: CRYPTOLITE_TRNG_BASE, size: CRYPTOLITE_TRNG_SIZE, permissions: MpuPermissions::ReadWriteXN },
    );
    regions.push(MpuRegion { base: EFUSE_CTL3_BASE, size: EFUSE_CTL3_SIZE, permissions: MpuPermissions::ReadXN });
    regions
}

/// A vector currently mapped into the MPU, and the region it took.
#[derive(Clone, Copy, Debug, PartialEq, Eq, Structural)]
pub struct MappedVector {
    pub is_outvec: bool,
    pub vec_idx: u32,
    pub region: MpuRegion,
}

/// Number of vectors that can be mapped at once.
pub const MAPPED_VECTOR_SLOTS: usize = 4;

/// The index of the first free slot at or after `from`.
pub open spec fn spec_first_free(slots: Seq<Option<MappedVector>>, from: int) -> Option<int>
    decreases slots.len() - from,
{
    if from < 0 || from >= slots.len() {
        None
    } else if slots[from] is None {
        Some(from)
    } else {
        spec_first_free(slots, from + 1)
    }
}

/// The index of the first slot at or after `from` holding the given vector.
pub open spec fn spec_first_match(slots: Seq<Option<MappedVector>>, is_outvec: bool, vec_idx: u32, from: int) -> Option<
    int,
>
    decreases slots.len() - from,
{
    if from < 0 || from >= slots.len() {
        None
    } else if slots[from] matches Some(m) && m.is_outvec == is_outvec && m.vec_idx == vec_idx {
        Some(from)
    } else {
        spec_first_match(slots, is_outvec, vec_idx, from + 1)
    }
}

/// The vectors mapped into the MPU, each with the region it took.
pub struct MappedVectorTable {
    slots: [Option<MappedVector>; 4],
}

impl View for MappedVectorTable {
    type V = Seq<Option<MappedVector>>;

    closed spec fn view(&self) -> Seq<Option<MappedVector>> {
        self.slots@
    }
}

impl MappedVectorTable {
    /// No vector mapped.
    pub fn new() -> (r: Self)
        ensures
            r@ == Seq::new(MAPPED_VECTOR_SLOTS as nat, |i: int| None::<MappedVector>),
    {
        let r = MappedVectorTable { slots: [None, None, None, None] };
        assert(r@ =~= Seq::new(MAPPED_VECTOR_SLOTS as nat, |i: int| None::<MappedVector>));
        r
    }

    /// Records a mapped vector in the first free slot; `false`, with
    /// nothing recorded, when every slot is taken.
    pub fn record(&mut self, entry: MappedVector) -> (r: bool)
        ensures
            final(self)@.len() == MAPPED_VECTOR_SLOTS,
            match spec_first_free(old(self)@, 0) {
                Some(k) => r && final(self)@ == old(self)@.update(k, Some(entry)),
                None => !r && final(self)@ == old(self)@,
            },
    {
        let mut i: usize = 0;
        while i < MAPPED_VECTOR_SLOTS
            invariant
                0 <= i <= MAPPED_VECTOR_SLOTS,
                self@ == old(self)@,
                self@.len() == MAPPED_VECTOR_SLOTS,
                spec_first_free(self@, 0) == spec_first_free(self@, i as int),
            decreases MAPPED_VECTOR_SLOTS - i,
        {
            if self.slots[i].is_none() {
                self.slots[i] = Some(entry);
                return true;
            }
            i = i + 1;
        }
        false
    }

    /// Forgets the first slot holding the given vector and returns the
    /// region it took, to be removed from the MPU; `None` if it is not
    /// mapped.
    pub fn remove(&mut self, is_outvec: bool, vec_idx: u32) -> (r: Option<MpuRegion>)
        ensures
            final(self)@.len() == MAPPED_VECTOR_SLOTS,
            match spec_first_match(old(self)@, is_outvec, vec_idx, 0) {
                Some(k) => r == Some(old(self)@[k]->0.region) && final(self)@ == old(self)@.update(k, None),
                None => r is None && final(self)@ == old(self)@,
            },
    {
        let mut i: usize = 0;
        while i < MAPPED_VECTOR_SLOTS
            invariant
                0 <= i <= MAPPED_VECTOR_SLOTS,
                self@ == old(self)@,
                self@.len() == MAPPED_VECTOR_SLOTS,
                spec_first_match(self@, is_outvec, vec_idx, 0) == spec_first_match(self@, is_outvec, vec_idx, i as int),
            decreases MAPPED_VECTOR_SLOTS - i,
        {
            match self.slots[i] {
                Some(m) => {
                    if m.is_outvec == is_outvec && m.vec_idx == vec_idx {
                        self.slots[i] = None;
                        return Some(m.region);
                    }
                },
                None => {},
            }
            i = i + 1;
        }
        None
    }
}

/// Mapping a vector and then unmapping it gives back the region it took and
/// the table as it was, when the vector was not mapped already and a slot
/// was free.
pub proof fn law_record_then_remove(slots: Seq<Option<MappedVector>>, entry: MappedVector)
    requires
        spec_first_free(slots, 0) is Some,
        spec_first_match(slots, entry.is_outvec, entry.vec_idx, 0) is None,
    ensures
        ({
            let k = spec_first_free(slots, 0)->0;
            let after = slots.update(k, Some(entry));
            &&& spec_first_match(after, entry.is_outvec, entry.vec_idx, 0) == Some(k)
            &&& after.update(k, None) == slots
        }),
{
    let k = spec_first_free(slots, 0)->0;
    lemma_first_free_is_free(slots, 0);
    lemma_record_then_match(slots, entry, k, 0);
    assert(slots.update(k, Some(entry)).update(k, None) =~= slots);
}

/// The first free slot is a free slot of the table.
proof fn lemma_first_free_is_free(slots: Seq<Option<MappedVector>>, from: int)
    ensures
        spec_first_free(slots, from) matches Some(k) ==> from <= k < slots.len() && slots[k] is None,
    decreases slots.len() - from,
{
    if from < 0 || from >= slots.len() {
    } else if slots[from] is None {
    } else {
        lemma_first_free_is_free(slots, from + 1);
    }
}

/// After filling the first free slot `k` with a vector no slot held, the
/// first slot holding it is `k`.
proof fn lemma_record_then_match(slots: Seq<Option<MappedVector>>, entry: MappedVector, k: int, from: int)
    requires
        spec_first_free(slots, from) == Some(k),
        spec_first_match(slots, entry.is_outvec, entry.vec_idx, from) is None,
        0 <= from,
    ensures
        spec_first_match(slots.update(k, Some(entry)), entry.is_outvec, entry.vec_idx, from) == Some(k),
    decreases slots.len() - from,
{
    lemma_first_free_is_free(slots, from);
    if from == k {
    } else {
        lemma_record_then_match(slots, entry, k, from + 1);
    }
}

} // verus!
