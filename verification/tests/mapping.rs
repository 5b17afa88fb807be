//! The memory-mapping syscalls: validation, overlap, round trips, and the
//! cross-page translator.

use syscall_core::error::SysError;
use syscall_core::memory::AddressSpace;
use syscall_core::syscall::{sys_mmap, sys_munmap};
use syscall_core::task::Task;

fn fresh_task() -> Task {
    Task::new(0x1000, 0)
}

#[test]
fn mmap_rejects_prot_with_outside_bits() {
    let mut t = fresh_task();
    assert_eq!(sys_mmap(&mut t, 0x10000, 4096, 0x8), -1);
    assert_eq!(sys_mmap(&mut t, 0x10000, 4096, 0x11), -1);
    assert_eq!(sys_mmap(&mut t, 0x10000, 0, 0x8), -1);
    assert_eq!(sys_mmap(&mut t, 0x10000, 123_456, 0xff), -1);
}

#[test]
fn mmap_rejects_zero_prot() {
    let mut t = fresh_task();
    assert_eq!(sys_mmap(&mut t, 0x10000, 4096, 0), -1);
    assert_eq!(sys_mmap(&mut t, 0x10000, 0, 0), -1);
}

#[test]
fn mmap_rejects_unaligned_start() {
    let mut t = fresh_task();
    assert_eq!(sys_mmap(&mut t, 0x10001, 4096, 0x3), -1);
    assert_eq!(sys_mmap(&mut t, 0x10ffe, 8192, 0x7), -1);
}

#[test]
fn mmap_munmap_round_trip_then_second_munmap_fails() {
    let mut t = fresh_task();
    assert_eq!(sys_mmap(&mut t, 0x10000, 8192, 0x3), 0);
    assert_eq!(sys_munmap(&mut t, 0x10000, 8192), 0);
    assert_eq!(sys_munmap(&mut t, 0x10000, 8192), -1);
}

#[test]
fn mmap_rounds_length_up_to_whole_pages() {
    let mut t = fresh_task();
    assert_eq!(sys_mmap(&mut t, 0x10000, 4097, 0x3), 0);
    // the mapping covers two pages, so unmapping both succeeds
    assert_eq!(sys_munmap(&mut t, 0x10000, 8192), 0);
}

#[test]
fn munmap_rejects_unaligned_arguments() {
    let mut t = fresh_task();
    assert_eq!(sys_mmap(&mut t, 0x10000, 8192, 0x3), 0);
    assert_eq!(sys_munmap(&mut t, 0x10001, 8192), -1);
    assert_eq!(sys_munmap(&mut t, 0x10000, 8191), -1);
}

#[test]
fn munmap_rejects_range_with_unmapped_page() {
    let mut t = fresh_task();
    assert_eq!(sys_mmap(&mut t, 0x10000, 4096, 0x3), 0);
    // second page of the requested range was never mapped
    assert_eq!(sys_munmap(&mut t, 0x10000, 8192), -1);
    // the mapped page survived the rejected call
    assert_eq!(sys_munmap(&mut t, 0x10000, 4096), 0);
}

#[test]
fn munmap_splits_a_larger_mapping_at_page_granularity() {
    let mut t = fresh_task();
    assert_eq!(sys_mmap(&mut t, 0x10000, 3 * 4096, 0x3), 0);
    // unmap only the middle page
    assert_eq!(sys_munmap(&mut t, 0x11000, 4096), 0);
    assert!(t.addr_space.read_bytes(0x10000, 4096).is_ok());
    assert!(t.addr_space.read_bytes(0x12000, 4096).is_ok());
    assert!(t.addr_space.read_bytes(0x11000, 1).is_err());
}

#[test]
fn overlapping_mmap_fails_and_leaves_regions_intact() {
    let mut t = fresh_task();
    assert_eq!(sys_mmap(&mut t, 0x10000, 4096, 0x3), 0);
    assert_eq!(sys_mmap(&mut t, 0x30000, 8192, 0x7), 0);
    // overlaps the first region
    assert_eq!(sys_mmap(&mut t, 0x10000, 4096, 0x3), -1);
    // overlaps the tail page of the second region
    assert_eq!(sys_mmap(&mut t, 0x31000, 4096, 0x3), -1);
    // both prior regions are still there and still writable
    let data = vec![0xabu8; 16];
    assert!(t.addr_space.write_bytes(0x10000, &data).is_ok());
    assert!(t.addr_space.write_bytes(0x31000, &data).is_ok());
    assert_eq!(t.addr_space.read_bytes(0x10000, 16).unwrap(), data);
}

#[test]
fn mapped_pages_read_as_zero() {
    let mut t = fresh_task();
    assert_eq!(sys_mmap(&mut t, 0x10000, 8192, 0x3), 0);
    let bytes = t.addr_space.read_bytes(0x10000, 8192).unwrap();
    assert_eq!(bytes, vec![0u8; 8192]);
}

#[test]
fn write_then_read_across_page_boundary() {
    let mut t = fresh_task();
    assert_eq!(sys_mmap(&mut t, 0x10000, 8192, 0x3), 0);
    let data: Vec<u8> = (0..4096u32).map(|i| (i % 251) as u8).collect();
    // 0x10ffe straddles the page boundary at 0x11000
    assert!(t.addr_space.write_bytes(0x10ffe, &data).is_ok());
    assert_eq!(t.addr_space.read_bytes(0x10ffe, 4096).unwrap(), data);
    // neighbours of the written range are still zero
    assert_eq!(t.addr_space.read_bytes(0x10ffd, 1).unwrap(), vec![0u8]);
    assert_eq!(t.addr_space.read_bytes(0x11ffe, 1).unwrap(), vec![0u8]);
}

#[test]
fn end_to_end_map_write_read_unmap_faults() {
    let mut t = fresh_task();
    assert_eq!(sys_mmap(&mut t, 0x10000, 8192, 0x3), 0);
    let data: Vec<u8> = (0..4096u32).map(|i| (i * 7 % 256) as u8).collect();
    assert!(t.addr_space.write_bytes(0x10ffe, &data).is_ok());
    assert_eq!(t.addr_space.read_bytes(0x10ffe, 4096).unwrap(), data);
    assert_eq!(sys_munmap(&mut t, 0x10000, 8192), 0);
    assert!(t.addr_space.read_bytes(0x10000, 1).is_err());
    assert!(t.addr_space.write_bytes(0x10000, &data).is_err());
}

#[test]
fn translation_respects_access_rights() {
    let mut t = fresh_task();
    // read-only page
    assert_eq!(sys_mmap(&mut t, 0x10000, 4096, 0x1), 0);
    assert!(t.addr_space.read_bytes(0x10000, 4).is_ok());
    assert!(t.addr_space.write_bytes(0x10000, &vec![1u8]).is_err());
    // write-only page
    assert_eq!(sys_mmap(&mut t, 0x20000, 4096, 0x2), 0);
    assert!(t.addr_space.write_bytes(0x20000, &vec![1u8]).is_ok());
    assert!(t.addr_space.read_bytes(0x20000, 1).is_err());
}

#[test]
fn failed_write_leaves_memory_unchanged() {
    let mut t = fresh_task();
    assert_eq!(sys_mmap(&mut t, 0x10000, 4096, 0x3), 0);
    // the range runs off the end of the mapped page
    let data = vec![0x55u8; 64];
    assert!(t.addr_space.write_bytes(0x10fe0, &data).is_err());
    assert_eq!(
        t.addr_space.read_bytes(0x10fe0, 32).unwrap(),
        vec![0u8; 32]
    );
}

#[test]
fn core_boundary_distinguishes_every_rejection() {
    let mut space = AddressSpace::new();
    assert_eq!(space.mmap(0x10000, 4096, 0x9), Err(SysError::InvalidPermission));
    assert_eq!(space.mmap(0x10000, 4096, 0x0), Err(SysError::InvalidPermission));
    assert_eq!(space.mmap(0x10001, 4096, 0x3), Err(SysError::InvalidAlignment));
    assert_eq!(space.mmap(0x10000, 4096, 0x3), Ok(()));
    assert_eq!(space.mmap(0x10000, 4096, 0x3), Err(SysError::RegionOverlap));
    assert_eq!(space.munmap(0x10001, 4096), Err(SysError::InvalidAlignment));
    assert_eq!(space.munmap(0x10000, 4095), Err(SysError::InvalidAlignment));
    assert_eq!(space.munmap(0x20000, 4096), Err(SysError::RegionNotMapped));
    assert_eq!(space.read_bytes(0x20000, 1), Err(SysError::AddressFault));
    assert_eq!(space.write_bytes(0x20000, &vec![0u8]), Err(SysError::AddressFault));
    assert_eq!(space.munmap(0x10000, 4096), Ok(()));
}

#[test]
fn fresh_address_space_maps_nothing() {
    let space = AddressSpace::new();
    assert!(space.read_bytes(0, 1).is_err());
    assert!(space.read_bytes(0x10000, 1).is_err());
}
