use iron_nes::error::{IronNesError, IronNesResult};
use iron_nes::nes::bus::memory_mapped::MemoryMappedRam;
use iron_nes::nes::bus::{Bus, Device, PAGE_SIZE};
use iron_nes::nes::cpu::addressing::AddressingMode;
use iron_nes::nes::cpu::Registers;
use iron_nes::nes::memory::{cpu_store, cpu_store16};

fn make_bus() -> Bus {
    let ppu_nametables = Device::Ram(MemoryMappedRam::new(0));
    let ppu_reg = Device::Ram(MemoryMappedRam::new(8));
    let cartridge_rom = vec![0; PAGE_SIZE];
    let cartridge_vram = vec![0; PAGE_SIZE];

    Bus::new(ppu_nametables, ppu_reg, cartridge_rom, cartridge_vram)
}

#[test]
fn test_mode_absolute() -> IronNesResult<()> {
    let mut bus = make_bus();
    let mut r = Registers::new();
    r.pc = 0xd005;
    r.x = 5;
    r.y = 0xff;

    cpu_store16(&mut bus, r.pc - 2, 0xc000)?;

    let instr = AddressingMode::Absolute;
    let val = instr.load_operand(&r, &mut bus)?;
    assert_eq!(0xc000, val);

    let instr = AddressingMode::AbsoluteX;
    let val = instr.load_operand(&r, &mut bus)?;
    assert_eq!(0xc005, val);

    let instr = AddressingMode::AbsoluteY;
    let val = instr.load_operand(&r, &mut bus)?;
    assert_eq!(0xc0ff, val);

    Ok(())
}

#[test]
fn test_mode_zeropage() -> IronNesResult<()> {
    let mut bus = make_bus();
    let mut r = Registers::new();
    r.pc = 0xd005;
    r.x = 5;
    r.y = 0xf;

    cpu_store(&mut bus, r.pc - 1, 0xc0)?;

    let instr = AddressingMode::ZeroPage;
    let val = instr.load_operand(&r, &mut bus)?;
    assert_eq!(0xc0, val);

    let instr = AddressingMode::ZeroPageX;
    let val = instr.load_operand(&r, &mut bus)?;
    assert_eq!(0xc5, val);

    let instr = AddressingMode::ZeroPageY;
    let val = instr.load_operand(&r, &mut bus)?;
    assert_eq!(0xcf, val);

    Ok(())
}

#[test]
fn test_mode_relative() -> IronNesResult<()> {
    let mut bus = make_bus();
    let mut r = Registers::new();
    r.pc = 0xc005;

    let instr = AddressingMode::Relative;

    cpu_store(&mut bus, r.pc - 1, 0x3)?;
    let val = instr.load_operand(&r, &mut bus)?;
    assert_eq!(0xc008, val);

    Ok(())
}

#[test]
fn test_mode_relative_wrap() -> IronNesResult<()> {
    let mut bus = make_bus();
    let mut r = Registers::new();
    r.pc = 0xc72a + 2;

    let instr = AddressingMode::Relative;
    cpu_store(&mut bus, r.pc - 1, 0xe0)?;
    let val = instr.load_operand(&r, &mut bus)?;
    assert_eq!(0xc70c, val);

    Ok(())
}

#[test]
fn test_mode_indirect() -> IronNesResult<()> {
    let mut bus = make_bus();
    let mut r = Registers::new();
    r.pc = 0xc400;
    let instr = AddressingMode::Indirect;

    // Immediate value of the op
    cpu_store16(&mut bus, r.pc - 2, 0xd15f)?;

    // Actual value in memory
    cpu_store16(&mut bus, 0xd15f, 0x3076)?;

    let val = instr.load_operand(&r, &mut bus)?;
    assert_eq!(0x3076, val);
    Ok(())
}

#[test]
fn test_mode_indirectx() -> IronNesResult<()> {
    let mut bus = make_bus();
    let mut r = Registers::new();
    r.pc = 0xc400;
    r.x = 0x05;
    let instr = AddressingMode::IndirectX;

    // Immediate value of the op
    cpu_store(&mut bus, r.pc - 1, 0x3e)?;

    // Actual value in memory
    cpu_store16(&mut bus, 0x0043, 0xd415)?;

    let val = instr.load_operand(&r, &mut bus)?;
    assert_eq!(0xd415, val);
    Ok(())
}

#[test]
fn test_mode_indirecty() -> IronNesResult<()> {
    let mut bus = make_bus();
    let mut r = Registers::new();
    r.pc = 0xc400;
    r.y = 0x05;
    let instr = AddressingMode::IndirectY;

    // Immediate value of the op
    cpu_store(&mut bus, r.pc - 1, 0x4c)?;

    // Actual value in memory
    cpu_store16(&mut bus, 0x004c, 0xd100)?;

    let val = instr.load_operand(&r, &mut bus)?;
    assert_eq!(0xd105, val);
    Ok(())
}

#[test]
fn immediate_and_accumulator_operands() -> IronNesResult<()> {
    let mut bus = make_bus();
    let mut r = Registers::new();
    r.pc = 0x0202;
    r.a = 0x9c;
    cpu_store(&mut bus, 0x0201, 0x7f)?;
    assert_eq!(0x7f, AddressingMode::Immediate.load_operand(&r, &mut bus)?);
    assert_eq!(0x9c, AddressingMode::Accumulator.load_operand(&r, &mut bus)?);
    Ok(())
}

#[test]
fn zero_page_index_wraps_in_page_zero() -> IronNesResult<()> {
    let mut bus = make_bus();
    let mut r = Registers::new();
    r.pc = 0x0202;
    r.x = 0x20;
    cpu_store(&mut bus, 0x0201, 0xf0)?;
    assert_eq!(0x10, AddressingMode::ZeroPageX.load_operand(&r, &mut bus)?);
    Ok(())
}

#[test]
fn implied_and_illegal_modes_have_no_operand() {
    let mut bus = make_bus();
    let r = Registers::new();
    for mode in [AddressingMode::Implied, AddressingMode::Illegal, AddressingMode::Unknown] {
        assert!(matches!(mode.load_operand(&r, &mut bus), Err(IronNesError::IllegalInstruction)));
    }
}

#[test]
fn modes_from_their_codes() {
    assert_eq!(AddressingMode::AbsoluteY, AddressingMode::from_code("ABSY"));
    assert_eq!(AddressingMode::ZeroPage, AddressingMode::from_code("ZP"));
    assert_eq!(AddressingMode::Unknown, AddressingMode::from_code("XYZ"));
    assert_eq!(Ok(AddressingMode::Relative), "REL".parse::<AddressingMode>());
}
