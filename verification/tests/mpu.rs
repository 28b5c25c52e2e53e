use spe::mpu::{
    process_mpu_regions, region_len, vec_mapping_region, vec_region, MappedVector,
    MappedVectorTable, MpuPermissions, MpuRegion, CRYPTOLITE_TRNG_BASE, EFUSE_CTL3_BASE,
};
use spe::spm::process::ServiceVectors;

#[test]
fn region_len_of_window() {
    assert_eq!(region_len(0x1000, 0x1800, "ROM"), 0x800);
    assert_eq!(region_len(0x1000, 0x1000, "RAM"), 0);
}

#[test]
fn vec_region_rounds_out_to_granule() {
    assert_eq!(
        vec_region(0x2000_0005, 10, MpuPermissions::ReadXN),
        Some(MpuRegion {
            base: 0x2000_0000,
            size: 0x20,
            permissions: MpuPermissions::ReadXN
        })
    );
    assert_eq!(
        vec_region(0x2000_001F, 2, MpuPermissions::ReadWriteXN),
        Some(MpuRegion {
            base: 0x2000_0000,
            size: 0x40,
            permissions: MpuPermissions::ReadWriteXN
        })
    );
    assert_eq!(
        vec_region(0x2000_0020, 0x20, MpuPermissions::ReadXN),
        Some(MpuRegion {
            base: 0x2000_0020,
            size: 0x20,
            permissions: MpuPermissions::ReadXN
        })
    );
}

#[test]
fn vec_region_empty_or_wrapping_has_none() {
    assert_eq!(vec_region(0x2000_0000, 0, MpuPermissions::ReadXN), None);
    assert_eq!(vec_region(usize::MAX - 10, 5, MpuPermissions::ReadXN), None);
}

#[test]
fn vec_mapping_region_permissions() {
    assert_eq!(
        vec_mapping_region(true, 0x100, 4).unwrap().permissions,
        MpuPermissions::ReadWriteXN
    );
    assert_eq!(
        vec_mapping_region(false, 0x100, 4).unwrap().permissions,
        MpuPermissions::ReadXN
    );
}

#[test]
fn process_regions_of_a_flash_process() {
    let vectors = ServiceVectors {
        version: 1,
        init_entry: 0,
        call_entry: 0,
        rom_start: 0x1000_0000,
        rom_limit: 0x1000_8000,
        ram_start: 0x2000_0000,
        ram_limit: 0x2000_1000,
        stack_limit: 0x2000_0000,
        stack_top: 0x2000_1000,
    };
    let regions = process_mpu_regions(&vectors);
    assert_eq!(regions.len(), 4);
    assert_eq!(
        regions[0],
        MpuRegion {
            base: 0x1000_0000,
            size: 0x8000,
            permissions: MpuPermissions::ReadExecute
        }
    );
    assert_eq!(regions[1].size, 0x1000);
    assert_eq!(regions[2].base, CRYPTOLITE_TRNG_BASE);
    assert_eq!(regions[2].size, 0x200);
    assert_eq!(regions[3].base, EFUSE_CTL3_BASE);
    assert_eq!(regions[3].permissions, MpuPermissions::ReadXN);
}

fn entry(is_outvec: bool, vec_idx: u32, base: usize) -> MappedVector {
    MappedVector {
        is_outvec,
        vec_idx,
        region: MpuRegion {
            base,
            size: 0x20,
            permissions: MpuPermissions::ReadXN,
        },
    }
}

#[test]
fn mapped_vector_table_record_and_remove() {
    let mut table = MappedVectorTable::new();
    assert!(table.record(entry(false, 0, 0x100)));
    assert!(table.record(entry(true, 0, 0x200)));
    assert_eq!(table.remove(false, 0).map(|r| r.base), Some(0x100));
    assert_eq!(table.remove(false, 0), None);
    // The freed slot is reused first.
    assert!(table.record(entry(false, 1, 0x300)));
    assert!(table.record(entry(false, 2, 0x400)));
    assert!(table.record(entry(false, 3, 0x500)));
    assert!(!table.record(entry(true, 3, 0x600)));
    assert_eq!(table.remove(true, 0).map(|r| r.base), Some(0x200));
}
