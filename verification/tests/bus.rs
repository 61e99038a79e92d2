use gb_cpu::bus::{Bus, MemorySurface, MEMORY_SIZE};

#[test]
fn new_bus_reads_zero_everywhere() {
    let bus = Bus::new();
    for address in 0u16..=0xFFFF {
        assert_eq!(bus.read_byte(address), 0);
    }
    assert_eq!(MEMORY_SIZE, 65536);
}

#[test]
fn every_address_can_be_written_and_read() {
    let mut bus = Bus::new();
    for address in 0u16..=0xFFFF {
        bus.write_byte(address, (address % 251) as u8);
    }
    for address in 0u16..=0xFFFF {
        assert_eq!(bus.read_byte(address), (address % 251) as u8);
    }
}

#[test]
fn a_write_touches_one_byte_only() {
    let mut bus = Bus::new();
    bus.write_byte(0xFFFF, 0xAB);
    assert_eq!(bus.read_byte(0xFFFF), 0xAB);
    assert_eq!(bus.read_byte(0xFFFE), 0x00);
    assert_eq!(bus.read_byte(0x0000), 0x00);
    bus.write_byte(0x0000, 0xCD);
    assert_eq!(bus.read_byte(0x0000), 0xCD);
    assert_eq!(bus.read_byte(0x0001), 0x00);
    assert_eq!(bus.read_byte(0xFFFF), 0xAB);
    bus.write_byte(0xFFFF, 0x01);
    assert_eq!(bus.read_byte(0xFFFF), 0x01);
}

#[test]
fn bus_is_a_memory_surface() {
    let mut bus = Bus::new();
    MemorySurface::write(&mut bus, 0x1234, 0x56);
    assert_eq!(MemorySurface::read(&bus, 0x1234), 0x56);
    assert_eq!(bus.read_byte(0x1234), 0x56);
    assert_eq!(MemorySurface::read(&bus, 0x1235), 0x00);
}
