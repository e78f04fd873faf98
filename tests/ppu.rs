use iron_nes::error::{IronNesError, IronNesResult};
use iron_nes::nes::bus::memory_mapped::MemoryMapped;
use iron_nes::nes::ppu::registers::Registers;

#[test]
fn test_bus_ppuctrl() -> IronNesResult<()> {
    let mut r = Registers::new();
    r.set_vblank(true);
    assert_eq!(0x80, r.load(Registers::PPUCTRL_ADDR)?);
    Ok(())
}

#[test]
fn test_bus_ppustatus() -> IronNesResult<()> {
    let mut r = Registers::new();
    r.latch = 0b0101_1010u8;
    r.ppustatus.store(0xf0);
    assert_eq!(0b1111_1010u8, r.load(Registers::PPUSTATUS_ADDR)?);
    assert_eq!(
        0b0111_1010u8,
        r.load(Registers::PPUSTATUS_ADDR)?,
        "Subsequent reads should clear bit 7"
    );
    Ok(())
}

#[test]
fn test_bus_ppu_oamdata() -> IronNesResult<()> {
    let mut r = Registers::new();
    r.store(Registers::OAMADDR_ADDR, 0xbe)?;
    assert_eq!(0xbe, r.load(Registers::OAMADDR_ADDR)?);
    r.store(Registers::OAMDATA_ADDR, 0)?;
    assert_eq!(
        0xbf,
        r.load(Registers::OAMADDR_ADDR)?,
        "Writing oamdata should +1 oamaddr"
    );
    Ok(())
}

#[test]
fn test_bus_ppuscroll() -> IronNesResult<()> {
    let mut r = Registers::new();
    r.store(Registers::PPUSCROLL_ADDR, 0xb)?;
    r.store(Registers::PPUSCROLL_ADDR, 0x2)?;
    let scroll = r.get_ppuscroll();
    assert_eq!(0xb, scroll.x);
    assert_eq!(0x2, scroll.y);
    r.store(Registers::PPUSCROLL_ADDR, 0x7)?;
    let scroll = r.get_ppuscroll();
    assert_eq!(0x2, scroll.x);
    assert_eq!(0x7, scroll.y);
    Ok(())
}

#[test]
fn test_bus_ppuaddr() -> IronNesResult<()> {
    let mut r = Registers::new();
    r.store(Registers::PPUADDR_ADDR, 0xbe)?;
    r.store(Registers::PPUADDR_ADDR, 0x2f)?;
    assert_eq!(0xbe2f, r.ppuaddr);
    r.store(Registers::PPUADDR_ADDR, 0x31)?;
    assert_eq!(0x2f31, r.ppuaddr);
    Ok(())
}

#[test]
fn test_bus_ppudata() -> IronNesResult<()> {
    let mut r = Registers::new();
    r.ppuaddr = 0xbeef;
    r.load(Registers::PPUDATA_ADDR)?;
    assert_eq!(0xbeef + 1, r.ppuaddr);

    r.ppuctrl.store(0xff);
    r.ppuaddr = 0xbeef;
    r.store(Registers::PPUDATA_ADDR, 0)?;
    assert_eq!(0xbeef + 32, r.ppuaddr);
    Ok(())
}

#[test]
fn control_bit_six_is_grounded() -> IronNesResult<()> {
    let mut r = Registers::new();
    r.store(Registers::PPUCTRL_ADDR, 0xff)?;
    assert_eq!(0xbf, r.load(Registers::PPUCTRL_ADDR)?);
    Ok(())
}

#[test]
fn status_is_read_only_and_write_only_registers_refuse_loads() {
    let mut r = Registers::new();
    assert!(matches!(r.store(Registers::PPUSTATUS_ADDR, 1), Err(IronNesError::MemoryError(_))));
    assert_eq!(1, r.latch);
    for a in [Registers::OAMDATA_ADDR, Registers::PPUSCROLL_ADDR, Registers::PPUADDR_ADDR] {
        assert!(matches!(r.load(a), Err(IronNesError::MemoryError(_))));
    }
}

#[test]
fn registers_repeat_every_eight_bytes() -> IronNesResult<()> {
    let mut r = Registers::new();
    r.store(3, 0x44)?;
    assert_eq!(0x44, r.load(0x3ffb)?);
    Ok(())
}

#[test]
fn reset_clears_control_and_mask() -> IronNesResult<()> {
    let mut r = Registers::new();
    r.store(Registers::PPUMASK_ADDR, 0x1e)?;
    r.set_vblank(true);
    r.reset();
    assert_eq!(0, r.load(Registers::PPUCTRL_ADDR)?);
    assert_eq!(0, r.load(Registers::PPUMASK_ADDR)?);
    Ok(())
}
