use nes_core::asc::{Asc, BusMiss, MemoryMapped};
use nes_core::ram::Ram;

#[test]
fn ram_cells_default_to_zero() {
    let mut ram = Ram::new();
    assert_eq!(ram.read(0x0000), 0);
    assert_eq!(ram.read(0x1234), 0);
    assert_eq!(ram.read(0xffff), 0);
}

#[test]
fn ram_returns_last_written_value() {
    let mut ram = Ram::new();
    ram.write(0x1234, 7);
    ram.write(0x1234, 9);
    ram.write(0x1235, 1);
    assert_eq!(ram.read(0x1234), 9);
    assert_eq!(ram.read(0x1235), 1);
    assert_eq!(ram.read(0x1233), 0);
}

#[test]
fn load_vec_at_places_bytes_from_offset() {
    let mut ram = Ram::new();
    ram.write(0x0fff, 0xAA);
    ram.write(0x1003, 0xBB);
    ram.load_vec_at(vec![1, 2, 3], 0x1000);
    assert_eq!(ram.read(0x0fff), 0xAA);
    assert_eq!(ram.read(0x1000), 1);
    assert_eq!(ram.read(0x1001), 2);
    assert_eq!(ram.read(0x1002), 3);
    assert_eq!(ram.read(0x1003), 0xBB);
}

#[test]
fn load_vec_at_reaches_the_last_cell() {
    let mut ram = Ram::new();
    ram.load_vec_at(vec![0x11, 0x22], 0xfffe);
    assert_eq!(ram.read(0xfffe), 0x11);
    assert_eq!(ram.read(0xffff), 0x22);
    ram.load_vec_at(vec![], 0xffff);
    assert_eq!(ram.read(0xffff), 0x22);
}

#[test]
fn bus_miss_reads_zero_and_drops_writes() {
    let mut bus: Asc<Ram> = Asc::new();
    assert_eq!(bus.read(0x1234), 0);
    bus.write(0x1234, 5);
    assert_eq!(bus.read(0x1234), 0);
    let ram = bus.add_device(Ram::new());
    bus.register_device(0x10, ram, 0xffff);
    bus.write(0x11, 5);
    assert_eq!(bus.read(0x11), 0);
    assert_eq!(bus.device_mut(ram).read(0x11), 0);
}

#[test]
fn bus_records_misses_in_order_and_hands_them_out_once() {
    let mut bus: Asc<Ram> = Asc::new();
    let ram = bus.add_device(Ram::new());
    bus.register_device(0x10, ram, 0xffff);
    assert!(bus.is_mapped(0x10));
    assert!(!bus.is_mapped(0x11));
    assert_eq!(bus.read(0x1234), 0);
    bus.write(0x10, 1);
    bus.write(0x11, 5);
    assert_eq!(bus.read(0x10), 1);
    assert_eq!(bus.read(0xffff), 0);
    assert_eq!(
        bus.take_misses(),
        vec![
            BusMiss::Read { addr: 0x1234 },
            BusMiss::Write { addr: 0x11, value: 5 },
            BusMiss::Read { addr: 0xffff },
        ]
    );
    assert_eq!(bus.take_misses(), vec![]);
    assert_eq!(bus.read(0x10), 1);
    bus.write(0x12, 7);
    assert_eq!(bus.take_misses(), vec![BusMiss::Write { addr: 0x12, value: 7 }]);
}

#[test]
fn miss_is_recorded_at_the_raw_address() {
    let mut bus: Asc<Ram> = Asc::new();
    let ram = bus.add_device(Ram::new());
    bus.register_device_range(0x0000, 0x00ff, ram, 0x000f);
    assert_eq!(bus.read(0x0123), 0);
    assert_eq!(bus.take_misses(), vec![BusMiss::Read { addr: 0x0123 }]);
}

#[test]
fn addresses_are_registered_from_a_list() {
    let mut bus: Asc<Ram> = Asc::new();
    let first = bus.add_device(Ram::new());
    let second = bus.add_device(Ram::new());
    bus.register_device(0x30, first, 0xffff);
    bus.register_device(0x40, first, 0xffff);
    bus.register_device_addrs(&[0x3f10, 0x0005, 0x3f10, 0x30], second, 0x00ff);
    bus.register_device_addrs(&[], second, 0x0000);
    bus.write(0x3f10, 1);
    bus.write(0x0005, 2);
    bus.write(0x30, 3);
    bus.write(0x40, 4);
    bus.write(0x0006, 5);
    assert_eq!(bus.device_mut(second).read(0x10), 1);
    assert_eq!(bus.device_mut(second).read(0x05), 2);
    assert_eq!(bus.device_mut(second).read(0x30), 3);
    assert_eq!(bus.device_mut(first).read(0x30), 0);
    assert_eq!(bus.device_mut(first).read(0x40), 4);
    assert_eq!(bus.take_misses(), vec![BusMiss::Write { addr: 0x0006, value: 5 }]);
}

#[test]
fn mirrored_write_is_write_at_masked_address() {
    let mut bus: Asc<Ram> = Asc::new();
    let ram = bus.add_device(Ram::new());
    bus.register_device_range(0x0000, 0x1fff, ram, 0x07ff);
    bus.write(0x0801, 7);
    assert_eq!(bus.read(0x0001), 7);
    assert_eq!(bus.read(0x1001), 7);
    assert_eq!(bus.read(0x1801), 7);
    assert_eq!(bus.device_mut(ram).read(0x0001), 7);
    assert_eq!(bus.device_mut(ram).read(0x0801), 0);

    let mut direct: Asc<Ram> = Asc::new();
    let ram = direct.add_device(Ram::new());
    direct.register_device_range(0x0000, 0x1fff, ram, 0x07ff);
    direct.write(0x0801 & 0x07ff, 7);
    for addr in 0..=0x1fffu16 {
        assert_eq!(bus.read(addr), direct.read(addr));
    }
}

#[test]
fn one_device_answers_many_ranges() {
    let mut bus: Asc<Ram> = Asc::new();
    let ram = bus.add_device(Ram::new());
    bus.register_device_range(0x0000, 0x00ff, ram, 0xffff);
    bus.register_device_range(0x8000, 0x80ff, ram, 0x00ff);
    bus.write(0x8012, 0x99);
    assert_eq!(bus.read(0x0012), 0x99);
    assert_eq!(bus.device_count(), 1);
}

#[test]
fn devices_are_told_apart_by_handle() {
    let mut bus: Asc<Ram> = Asc::new();
    let first = bus.add_device(Ram::new());
    let second = bus.add_device(Ram::new());
    assert_eq!((first, second), (0, 1));
    bus.register_device(0x10, first, 0xffff);
    bus.register_device(0x20, second, 0x000f);
    bus.write(0x10, 1);
    bus.write(0x20, 2);
    assert_eq!(bus.device_mut(first).read(0x10), 1);
    assert_eq!(bus.device_mut(second).read(0x00), 2);
    assert_eq!(bus.device_mut(second).read(0x20), 0);
    assert_eq!(bus.device_count(), 2);
}

#[test]
fn registering_again_replaces_the_entry() {
    let mut bus: Asc<Ram> = Asc::new();
    let first = bus.add_device(Ram::new());
    let second = bus.add_device(Ram::new());
    bus.register_device(0x10, first, 0xffff);
    bus.write(0x10, 1);
    bus.register_device(0x10, second, 0xffff);
    assert_eq!(bus.read(0x10), 0);
    bus.write(0x10, 2);
    assert_eq!(bus.device_mut(first).read(0x10), 1);
    assert_eq!(bus.device_mut(second).read(0x10), 2);
}

#[test]
fn empty_range_registers_nothing() {
    let mut bus: Asc<Ram> = Asc::new();
    let ram = bus.add_device(Ram::new());
    bus.register_device_range(0x20, 0x10, ram, 0xffff);
    bus.write(0x10, 1);
    bus.write(0x18, 1);
    bus.write(0x20, 1);
    assert_eq!(bus.read(0x10), 0);
    assert_eq!(bus.read(0x18), 0);
    assert_eq!(bus.read(0x20), 0);
}

#[test]
fn range_covers_both_ends_and_whole_space() {
    let mut bus: Asc<Ram> = Asc::new();
    let ram = bus.add_device(Ram::new());
    bus.register_device_range(0x0000, 0xffff, ram, 0xffff);
    bus.write(0x0000, 1);
    bus.write(0xffff, 2);
    assert_eq!(bus.read(0x0000), 1);
    assert_eq!(bus.read(0xffff), 2);
    let mut bus: Asc<Ram> = Asc::new();
    let ram = bus.add_device(Ram::new());
    bus.register_device_range(0x10, 0x10, ram, 0xffff);
    bus.write(0x10, 3);
    bus.write(0x0f, 4);
    bus.write(0x11, 5);
    assert_eq!(bus.read(0x10), 3);
    assert_eq!(bus.read(0x0f), 0);
    assert_eq!(bus.read(0x11), 0);
}

#[test]
fn buses_nest() {
    let mut inner: Asc<Ram> = Asc::new();
    let ram = inner.add_device(Ram::new());
    inner.register_device_range(0x0000, 0x00ff, ram, 0x000f);
    let mut outer: Asc<Asc<Ram>> = Asc::new();
    let handle = outer.add_device(inner);
    outer.register_device_range(0x4000, 0x40ff, handle, 0x00ff);
    outer.write(0x4035, 0x77);
    assert_eq!(outer.read(0x4005), 0x77);
    assert_eq!(outer.read(0x4105), 0);
    assert_eq!(outer.device(handle).device_count(), 1);
}
