use iron_nes::error::{IronNesError, IronNesResult};
use iron_nes::nes::bus::memory_mapped::MemoryMappedRam;
use iron_nes::nes::bus::{Bus, Device, PAGE_SIZE};
use iron_nes::nes::memory::{
    stack_pop, stack_pop_addr, stack_push, stack_push_addr, Addr, MEM_STACK_BEGIN, MEM_STACK_END,
};

fn make_bus() -> Bus {
    let ppu_nametables = Device::Ram(MemoryMappedRam::new(0));
    let ppu_reg = Device::Ram(MemoryMappedRam::new(8));
    let cartridge_rom = vec![0; PAGE_SIZE];
    let cartridge_vram = vec![0; PAGE_SIZE];

    Bus::new(ppu_nametables, ppu_reg, cartridge_rom, cartridge_vram)
}

#[test]
fn test_stack() -> IronNesResult<()> {
    let mut bus = make_bus();
    let sp0: Addr = MEM_STACK_END - MEM_STACK_BEGIN;
    let mut sp = sp0;

    let data: u64 = 0xbeef1432;

    data.to_be_bytes()
        .iter()
        .for_each(|b| stack_push(&mut bus, &mut sp, *b).unwrap());
    assert_eq!(true, sp < sp0);

    data.to_be_bytes()
        .iter()
        .rev()
        .for_each(|b| assert_eq!(*b, stack_pop(&mut bus, &mut sp).unwrap()));
    assert_eq!(sp0, sp);

    Ok(())
}

#[test]
#[should_panic(expected = "Stack Overflow")]
fn test_stack_overflow() {
    let mut bus = make_bus();
    let mut sp = 0;
    stack_push(&mut bus, &mut sp, 1).unwrap();
}

#[test]
#[should_panic(expected = "Stack Underflow")]
fn test_stack_underflow() {
    let mut bus = make_bus();
    let mut sp = 0xff;
    stack_pop(&mut bus, &mut sp).unwrap();
}

#[test]
fn stack_limits_are_errors_and_leave_the_pointer() {
    let mut bus = make_bus();
    let mut sp: Addr = 0;
    assert!(matches!(stack_push(&mut bus, &mut sp, 1), Err(IronNesError::MemoryError(_))));
    assert_eq!(0, sp);
    let mut sp: Addr = 0xff;
    assert!(matches!(stack_pop(&mut bus, &mut sp), Err(IronNesError::MemoryError(_))));
    assert_eq!(0xff, sp);
}

#[test]
fn four_bytes_round_trip_through_the_stack() {
    let mut bus = make_bus();
    let mut sp: Addr = 0xfd;
    for b in [1u8, 2, 3, 4] {
        stack_push(&mut bus, &mut sp, b).unwrap();
    }
    assert_eq!(0xf9, sp);
    for b in [4u8, 3, 2, 1] {
        assert_eq!(b, stack_pop(&mut bus, &mut sp).unwrap());
    }
    assert_eq!(0xfd, sp);
}

#[test]
fn addresses_go_high_byte_first() {
    let mut bus = make_bus();
    let mut sp: Addr = 0xff;
    stack_push_addr(&mut bus, &mut sp, 0xc0de).unwrap();
    assert_eq!(0xfd, sp);
    assert_eq!(0xc0, bus.cpu_load(0x1ff).unwrap());
    assert_eq!(0xde, bus.cpu_load(0x1fe).unwrap());
    assert_eq!(0xc0de, stack_pop_addr(&mut bus, &mut sp).unwrap());
    assert_eq!(0xff, sp);
}
