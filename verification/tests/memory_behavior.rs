//! Address-space dispatch, round trips, caching, and overlap walking.

use fluxemu_core::memory::{
    AddressSpace, MappingError, MemoryOperationError, PageTarget,
};

fn ram_space() -> AddressSpace {
    let mut space = AddressSpace::new(16);
    let buffer = space.register_buffer(vec![0u8; 65536], true);
    space.map_ram(0, 0xffff, buffer).unwrap();
    space
}

#[test]
fn write_then_read_round_trips_u8() {
    let mut space = ram_space();
    for addr in [0usize, 1, 0x0fff, 0x1000, 0x7fff, 0xffff] {
        space.write8(addr, 0xa5).unwrap();
        assert_eq!(space.read8(addr).unwrap(), 0xa5);
    }
}

#[test]
fn write_then_read_round_trips_words() {
    let mut space = ram_space();
    space.write_le_u16(0x1234, 0xbeef).unwrap();
    assert_eq!(space.read_le_u16(0x1234).unwrap(), 0xbeef);
    space.write_le_u32(0x2000, 0xdeadbeef).unwrap();
    assert_eq!(space.read_le_u32(0x2000).unwrap(), 0xdeadbeef);
    space.write_le_u64(0x3000, 0x0123_4567_89ab_cdef).unwrap();
    assert_eq!(space.read_le_u64(0x3000).unwrap(), 0x0123_4567_89ab_cdef);
    // Little-endian byte order.
    assert_eq!(space.read8(0x1234).unwrap(), 0xef);
    assert_eq!(space.read8(0x1235).unwrap(), 0xbe);
}

#[test]
fn words_cross_page_boundaries() {
    let mut space = ram_space();
    // 0x0fff..0x1000 crosses a 4 KiB dispatch page.
    space.write_le_u16(0x0fff, 0x1122).unwrap();
    assert_eq!(space.read8(0x0fff).unwrap(), 0x22);
    assert_eq!(space.read8(0x1000).unwrap(), 0x11);
    assert_eq!(space.read_le_u16(0x0fff).unwrap(), 0x1122);
}

#[test]
fn unmapped_addresses_report_errors() {
    let mut space = AddressSpace::new(16);
    let buffer = space.register_buffer(vec![0u8; 0x100], true);
    space.map_ram(0x100, 0x1ff, buffer).unwrap();
    assert_eq!(
        space.read8(0x50),
        Err(MemoryOperationError::Unmapped { address: 0x50 })
    );
    assert_eq!(
        space.write8(0x2000, 1),
        Err(MemoryOperationError::Unmapped { address: 0x2000 })
    );
    assert_eq!(space.read8(0x150).unwrap(), 0);
}

#[test]
fn rom_reads_back_but_ignores_writes() {
    let mut space = AddressSpace::new(16);
    let buffer = space.register_buffer(vec![0x7e; 0x100], false);
    space.map_rom(0x400, 0x4ff, buffer).unwrap();
    assert_eq!(space.read8(0x410).unwrap(), 0x7e);
    // The write is accepted and silently dropped.
    assert_eq!(space.write8(0x410, 0x01), Ok(()));
    assert_eq!(space.read8(0x410).unwrap(), 0x7e);
}

#[test]
fn mapping_validation_errors() {
    let mut space = AddressSpace::new(16);
    let small = space.register_buffer(vec![0u8; 4], true);
    let frozen = space.register_buffer(vec![0u8; 256], false);
    assert_eq!(
        space.map_ram(10, 5, small),
        Err(MappingError::InvalidRange { low: 10, high: 5 })
    );
    assert_eq!(
        space.map_ram(0, 0xff, 99),
        Err(MappingError::UnknownBuffer { buffer: 99 })
    );
    assert_eq!(
        space.map_ram(0, 0xff, small),
        Err(MappingError::BufferTooSmall { buffer: small })
    );
    assert_eq!(
        space.map_ram(0, 0xff, frozen),
        Err(MappingError::BufferImmutable { buffer: frozen })
    );
    assert_eq!(
        space.map_ram(0, 0x2_0000, frozen),
        Err(MappingError::RangeOutsideSpace { high: 0x2_0000 })
    );
}

#[test]
fn overlapping_mappings_resolve_in_insertion_order() {
    let mut space = AddressSpace::new(16);
    let first = space.register_buffer(vec![0x11; 0x1000], true);
    let second = space.register_buffer(vec![0x22; 0x1000], true);
    space.map_ram(0x0000, 0x0fff, first).unwrap();
    space.map_ram(0x0800, 0x0fff, second).unwrap();
    // The earlier mapping wins on the overlap.
    assert_eq!(space.read8(0x0900).unwrap(), 0x11);
}

#[test]
fn mmio_targets_report_their_handler() {
    let mut space = AddressSpace::new(16);
    space.map_mmio(0x6000, 0x60ff, 7, true, false).unwrap();
    space.map_mmio(0x6100, 0x61ff, 8, false, true).unwrap();
    assert_eq!(
        space.read8(0x6010),
        Err(MemoryOperationError::Mmio { handler: 7, address: 0x6010 })
    );
    // A read-only handler is not a write target.
    assert_eq!(
        space.write8(0x6010, 1),
        Err(MemoryOperationError::Unmapped { address: 0x6010 })
    );
    assert_eq!(
        space.write8(0x6150, 1),
        Err(MemoryOperationError::Mmio { handler: 8, address: 0x6150 })
    );
    assert_eq!(
        space.read8(0x6150),
        Err(MemoryOperationError::Unmapped { address: 0x6150 })
    );
}

#[test]
fn cached_reads_equal_uncached_reads() {
    let mut space = ram_space();
    for addr in 0..256usize {
        space.write8(addr, (addr as u8).wrapping_mul(31)).unwrap();
    }
    let mut cache = space.cache();
    for addr in [0usize, 1, 2, 255, 100, 100, 0x0fff, 0x1000, 0x1001, 3] {
        let uncached = space.read8(addr);
        let cached = space.read8_cached(addr, &mut cache);
        assert_eq!(cached, uncached);
    }
    // Writes through the cache agree with plain writes too.
    let mut other = ram_space();
    let mut other_cache = other.cache();
    for addr in [10usize, 11, 12, 11, 10] {
        other.write8_cached(addr, 0x5a, &mut other_cache).unwrap();
        space.write8(addr, 0x5a).unwrap();
        assert_eq!(
            other.read8_cached(addr, &mut other_cache),
            space.read8(addr)
        );
    }
}

#[test]
fn unmap_removes_intersecting_entries() {
    let mut space = AddressSpace::new(16);
    let buffer = space.register_buffer(vec![0x33; 0x1000], true);
    space.map_ram(0x1000, 0x1fff, buffer).unwrap();
    assert_eq!(space.read8(0x1800).unwrap(), 0x33);
    space.unmap(0x1800, 0x18ff).unwrap();
    // The whole intersecting entry is gone.
    assert_eq!(
        space.read8(0x1000),
        Err(MemoryOperationError::Unmapped { address: 0x1000 })
    );
}

#[test]
fn overlapping_iterator_walks_in_page_then_insertion_order() {
    let mut space = AddressSpace::new(16);
    let a = space.register_buffer(vec![0u8; 0x4000], true);
    let b = space.register_buffer(vec![0u8; 0x4000], true);
    space.map_ram(0x0000, 0x3fff, a).unwrap();
    space.map_ram(0x1000, 0x1fff, b).unwrap();
    let mut it = space.table.overlapping(0x1800, 0x18ff);
    let mut seen: Vec<(usize, usize, PageTarget)> = Vec::new();
    while let Some(item) = it.next() {
        seen.push((item.range_low, item.range_high, item.target));
    }
    assert_eq!(seen.len(), 2);
    assert_eq!(seen[0].0, 0x0000);
    assert_eq!(seen[0].1, 0x3fff);
    assert_eq!(seen[1].0, 0x1000);
    assert_eq!(seen[1].1, 0x1fff);
    // Nothing intersects an untouched range.
    let mut empty = space.table.overlapping(0x8000, 0x80ff);
    assert!(empty.next().is_none());
}
