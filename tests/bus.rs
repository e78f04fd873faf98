use iron_nes::error::IronNesError;
use iron_nes::nes::bus::memory_mapped::{MemoryMapped, MemoryMappedRam};
use iron_nes::nes::bus::{Bus, Device, Route, PAGE_SIZE};
use iron_nes::nes::memory::{cpu_load, cpu_load16, cpu_store, cpu_store16};

fn make_bus() -> Bus {
    let ppu_nametables = Device::Ram(MemoryMappedRam::new(0));
    let ppu_reg = Device::Ram(MemoryMappedRam::new(8));
    let cartridge_rom = vec![0; PAGE_SIZE];
    let cartridge_vram = vec![0; PAGE_SIZE];

    Bus::new(ppu_nametables, ppu_reg, cartridge_rom, cartridge_vram)
}

#[test]
fn test_bus_cpu_zeropage() {
    let mut bus = make_bus();

    // how big a zero page is
    const ZP: usize = 0x800; // how big is ZP
    const NP: usize = 4; // # of mirrors

    let test_inputs = vec![0x13, 0xbe, 0x69, 0x42];

    test_inputs
        .iter()
        .enumerate()
        .for_each(|(i, v)| bus.cpu_store(v + (ZP * (i % NP)), *v as u8).unwrap());

    test_inputs.iter().for_each(|v| {
        for i in 0..NP {
            let addr = v + (ZP * i);
            let x = bus.cpu_load(addr).unwrap();
            assert_eq!((*v as u8), x,);
        }
    });
}

#[test]
fn ram_store_is_seen_in_all_four_mirrors() {
    let mut bus = make_bus();
    bus.cpu_store(0x1234 % 0x800, 0x5a).unwrap();
    for k in 0..4 {
        assert_eq!(0x5a, bus.cpu_load(0x1234 % 0x800 + 0x800 * k).unwrap());
    }
}

#[test]
fn cpu_map_routes_each_region() {
    let bus = make_bus();
    assert_eq!((0x123, Route::CpuRam), bus.cpu_map(0x1923).unwrap());
    assert_eq!((3, Route::PpuRegisters), bus.cpu_map(0x3ffb).unwrap());
    assert_eq!((0x16, Route::Io), bus.cpu_map(0x4016).unwrap());
    assert_eq!((0x3fff, Route::CartridgeRom), bus.cpu_map(0xffff).unwrap());
    assert!(matches!(bus.cpu_map(0x5000), Err(IronNesError::MemoryError(_))));
}

#[test]
fn missing_mapper_is_its_own_error() {
    let mut bus = make_bus();
    match bus.cpu_load(0x8000) {
        Err(IronNesError::MemoryError(m)) => assert_eq!("No mapper inserted", m),
        _ => panic!("expected a memory error"),
    }
    match bus.cpu_load(0x6000) {
        Err(IronNesError::MemoryError(m)) => assert_ne!("No mapper inserted", m),
        _ => panic!("expected a memory error"),
    }
    bus.set_mapper(Some(Device::Ram(MemoryMappedRam::new(0x4000))));
    bus.cpu_store(0x8001, 7).unwrap();
    assert_eq!(7, bus.cpu_load(0x8001).unwrap());
}

#[test]
fn two_bank_rom_fills_the_upper_half() {
    let mut rom = vec![0u8; 2 * PAGE_SIZE];
    rom[0] = 0x11;
    rom[2 * PAGE_SIZE - 1] = 0x22;
    let mut bus = Bus::new(
        Device::Ram(MemoryMappedRam::new(0)),
        Device::Ram(MemoryMappedRam::new(8)),
        rom,
        vec![],
    );
    assert_eq!(0x11, bus.cpu_load(0x8000).unwrap());
    assert_eq!(0x22, bus.cpu_load(0xffff).unwrap());
}

#[test]
fn device_offset_out_of_range_is_a_memory_error() {
    let mut ram = MemoryMappedRam::new(4);
    assert!(matches!(ram.load(4), Err(IronNesError::MemoryError(_))));
    assert!(matches!(ram.store(4, 1), Err(IronNesError::MemoryError(_))));
    ram.store(3, 9).unwrap();
    assert_eq!(9, ram.load(3).unwrap());
}

#[test]
fn load16_store16_round_trip() {
    let mut bus = make_bus();
    cpu_store16(&mut bus, 0x0345, 0xbeef).unwrap();
    assert_eq!(0xbeef, cpu_load16(&mut bus, 0x0345).unwrap());
    assert_eq!(0xef, cpu_load(&mut bus, 0x0345).unwrap());
    assert_eq!(0xbe, cpu_load(&mut bus, 0x0346).unwrap());
}

#[test]
fn load16_wraps_within_the_page() {
    let mut bus = make_bus();
    cpu_store16(&mut bus, 0x00ff, 0x1234).unwrap();
    assert_eq!(0x1234, cpu_load16(&mut bus, 0x00ff).unwrap());
    assert_eq!(0x34, cpu_load(&mut bus, 0x00ff).unwrap());
    assert_eq!(0x12, cpu_load(&mut bus, 0x0000).unwrap());
    assert_eq!(0x00, cpu_load(&mut bus, 0x0100).unwrap());
    cpu_store(&mut bus, 0x02ff, 0x01).unwrap();
    cpu_store(&mut bus, 0x0200, 0x02).unwrap();
    assert_eq!(0x0201, cpu_load16(&mut bus, 0x02ff).unwrap());
}

#[test]
fn load16_wraps_on_every_ram_page() {
    let mut bus = make_bus();
    cpu_store16(&mut bus, 0x08ff, 0xa55a).unwrap();
    assert_eq!(0x5a, cpu_load(&mut bus, 0x08ff).unwrap());
    assert_eq!(0xa5, cpu_load(&mut bus, 0x0800).unwrap());
    assert_eq!(0x00, cpu_load(&mut bus, 0x0900).unwrap());
    assert_eq!(0xa55a, cpu_load16(&mut bus, 0x08ff).unwrap());
}

#[test]
fn load16_at_the_top_of_ram_stays_in_ram() {
    let mut bus = Bus::new(
        Device::Ram(MemoryMappedRam::new(0)),
        Device::PpuRegisters(iron_nes::nes::ppu::registers::Registers::new()),
        vec![0; PAGE_SIZE],
        vec![],
    );
    cpu_store16(&mut bus, 0x1fff, 0x4000).unwrap();
    assert_eq!(0x4000, cpu_load16(&mut bus, 0x1fff).unwrap());
    assert_eq!(0x40, cpu_load(&mut bus, 0x1f00).unwrap());
}

#[test]
fn peek_has_no_side_effects() {
    let mut bus = Bus::new(
        Device::Ram(MemoryMappedRam::new(0)),
        Device::PpuRegisters(iron_nes::nes::ppu::registers::Registers::new()),
        vec![0; PAGE_SIZE],
        vec![],
    );
    bus.cpu_store(0x2000, 0x80).unwrap();
    assert_eq!(0x80, bus.cpu_peek(0x2000).unwrap());
    bus.cpu_store(0x0010, 0x42).unwrap();
    assert_eq!(0x42, bus.cpu_peek(0x0810).unwrap());
    assert!(matches!(bus.cpu_peek(0x5000), Err(IronNesError::MemoryError(_))));
}
