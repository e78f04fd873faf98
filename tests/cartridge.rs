use iron_nes::error::IronNesError;
use iron_nes::nes::cartridge::{which_mapper, Cartridge, CartridgeRegion, MirrorDirection};
use iron_nes::nes::IronNes;

fn header(b4: u8, b5: u8, b6: u8, b7: u8, b9: u8) -> Vec<u8> {
    vec![0x4e, 0x45, 0x53, 0x1a, b4, b5, b6, b7, 0, b9, 0, 0, 0, 0, 0, 0]
}

#[test]
fn header_fields() {
    let c = Cartridge::from_header(&header(2, 1, 0b0111, 0, 1)).unwrap();
    assert_eq!(2, c.num_prog_rom);
    assert_eq!(1, c.num_ppu_vrom);
    assert_eq!(MirrorDirection::Vertical, c.mirror);
    assert!(c.has_battery);
    assert!(c.has_trainer);
    assert_eq!(CartridgeRegion::PAL, c.region);
    assert_eq!(0x8000, c.get_prog_size());
    assert_eq!(0x2000, c.get_ppu_size());
    let c = Cartridge::from_header(&header(1, 1, 0b1000, 0, 0)).unwrap();
    assert_eq!(MirrorDirection::FourScreen, c.mirror);
    assert_eq!(CartridgeRegion::NTSC, c.region);
}

#[test]
fn bad_headers_are_cartridge_errors() {
    let mut h = header(1, 1, 0, 0, 0);
    h[3] = 0;
    assert!(matches!(Cartridge::from_header(&h), Err(IronNesError::CartridgeError)));
    assert!(matches!(Cartridge::from_header(&header(1, 1, 0, 0b10, 0)), Err(IronNesError::CartridgeError)));
    assert!(matches!(Cartridge::from_header(&header(1, 1, 0, 0, 0b10)), Err(IronNesError::CartridgeError)));
    assert!(matches!(Cartridge::from_header(&header(1, 1, 0x10, 0, 0)), Err(IronNesError::CartridgeError)));
    assert!(matches!(Cartridge::from_header(&header(1, 1, 0, 0x40, 0)), Err(IronNesError::CartridgeError)));
    assert!(matches!(Cartridge::from_header(&[0x4e, 0x45]), Err(IronNesError::CartridgeError)));
}

#[test]
fn parse_splits_the_banks() {
    let mut img = header(1, 1, 0b100, 0, 0);
    img.extend(vec![9u8; 512]);
    img.extend(vec![1u8; 0x4000]);
    img.extend(vec![2u8; 0x2000]);
    let (c, prog, ppu) = Cartridge::parse(&img).unwrap();
    assert!(c.has_trainer);
    assert_eq!(vec![1u8; 0x4000], prog);
    assert_eq!(vec![2u8; 0x2000], ppu);
    img.pop();
    assert!(matches!(Cartridge::parse(&img), Err(IronNesError::CartridgeError)));
}

#[test]
fn console_needs_one_or_two_program_banks() {
    let mut img = header(3, 0, 0, 0, 0);
    img.extend(vec![0u8; 3 * 0x4000]);
    assert!(matches!(IronNes::load(&img), Err(IronNesError::CartridgeError)));
}

#[test]
fn mapper_names() {
    assert_eq!("No mapper", which_mapper(0));
    assert_eq!("Nintendo MMC1", which_mapper(1));
    assert_eq!("UNKNOWN", which_mapper(14));
}

#[test]
fn cartridge_description() {
    let c = Cartridge::from_header(&header(1, 1, 0, 0, 0)).unwrap();
    assert_eq!(
        "Cartridge 4000 kB ROM 2000 kB VROM 0000 kB RAM MIRROR_HORIZONTAL NTSC MAPPER: No mapper",
        c.to_string()
    );
    let c = Cartridge::from_header(&header(2, 0, 0b0111, 0, 1)).unwrap();
    assert_eq!(
        "Cartridge 8000 kB ROM 0000 kB VROM 0000 kB RAM MIRROR_VERTICAL BATTERY TRAINER PAL MAPPER: No mapper",
        c.to_string()
    );
}

#[test]
fn error_messages() {
    assert_eq!("MemError: Stack Overflow", IronNesError::MemoryError("Stack Overflow".to_string()).to_string());
    assert_eq!("Error reading cartridge contents", IronNesError::CartridgeError.to_string());
    assert_eq!("Instruction is not supported", IronNesError::IllegalInstruction.to_string());
}
