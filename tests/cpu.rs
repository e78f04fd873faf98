use iron_nes::error::IronNesError;
use iron_nes::nes::bus::memory_mapped::MemoryMappedRam;
use iron_nes::nes::bus::{Bus, Device};
use iron_nes::nes::cpu::InterruptType;
use iron_nes::nes::cpu::addressing::AddressingMode;
use iron_nes::nes::cpu::instruction::Instruction;
use iron_nes::nes::cpu::{Cpu, Flags, Registers};
use iron_nes::nes::IronNes;

/// A one-bank cartridge image holding `program` at 0xc000, with the reset,
/// NMI and IRQ vectors given.
fn image(program: &[u8], reset: u16, irq: u16) -> Vec<u8> {
    let mut img = vec![0x4e, 0x45, 0x53, 0x1a, 1, 1, 0, 0, 0, 0, 0, 0, 0, 0, 0, 0];
    let mut prg = vec![0u8; 0x4000];
    prg[..program.len()].copy_from_slice(program);
    prg[0x3ffc] = (reset & 0xff) as u8;
    prg[0x3ffd] = (reset >> 8) as u8;
    prg[0x3ffe] = (irq & 0xff) as u8;
    prg[0x3fff] = (irq >> 8) as u8;
    img.extend_from_slice(&prg);
    img.extend_from_slice(&vec![0u8; 0x2000]);
    img
}

fn console(program: &[u8]) -> IronNes {
    let mut nes = IronNes::load(&image(program, 0xc000, 0xc100)).unwrap();
    nes.reset().unwrap();
    nes
}

fn state(nes: &IronNes) -> (u16, u8, u8, u8, u16, u8, usize) {
    let r = nes.get_cpu_registers();
    (r.pc, r.a, r.x, r.y, r.sp, r.get_status(), nes.get_cycles())
}

#[test]
fn lookup_is_total() {
    for op in 0..=255u8 {
        let i = Instruction::lookup(op);
        assert_eq!(op, i.opcode);
        assert!(1 <= i.bytes && i.bytes <= 3);
        assert!(i.cycles <= 8);
    }
}

#[test]
fn unknown_opcodes_are_illegal() {
    for op in [0x02u8, 0x12, 0x22, 0x32, 0x42, 0x52, 0x62, 0x72, 0x92, 0xb2, 0xd2, 0xf2] {
        let i = Instruction::lookup(op);
        assert_eq!(1, i.bytes);
        assert_eq!(0, i.cycles);
        assert_eq!(AddressingMode::Illegal, i.addr_mode);
        assert_eq!("ILLEGAL", i.mnemonic);
    }
}

#[test]
fn table_rows() {
    let i = Instruction::lookup(0xbd);
    assert_eq!(("LDA", 3, 4, true, AddressingMode::AbsoluteX), (i.mnemonic.as_str(), i.bytes, i.cycles, i.can_cross_page, i.addr_mode));
    let i = Instruction::lookup(0xb3);
    assert_eq!(("*LAX", 2, 5, true, AddressingMode::IndirectY), (i.mnemonic.as_str(), i.bytes, i.cycles, i.can_cross_page, i.addr_mode));
    let i = Instruction::lookup(0x6c);
    assert_eq!(("JMP", 3, 5, false, AddressingMode::Indirect), (i.mnemonic.as_str(), i.bytes, i.cycles, i.can_cross_page, i.addr_mode));
    let i = Instruction::lookup(0xeb);
    assert_eq!(("*SBC", 2, 2, false, AddressingMode::Immediate), (i.mnemonic.as_str(), i.bytes, i.cycles, i.can_cross_page, i.addr_mode));
}

#[test]
fn disassembly_text() {
    assert_eq!("a9 10    LDA #$10", Instruction::lookup(0xa9).text(0x10, 0));
    assert_eq!("bd 00 c0 LDA $c000,X", Instruction::lookup(0xbd).text(0x00, 0xc0));
    assert_eq!("a1 3e    LDA ($3e,X)", Instruction::lookup(0xa1).text(0x3e, 0));
    assert_eq!("b6 3e    LDX $3e,Y", Instruction::lookup(0xb6).text(0x3e, 0));
    assert_eq!("0a       ASL A", Instruction::lookup(0x0a).text(0, 0));
    assert_eq!("ea       NOP ", Instruction::lookup(0xea).text(0, 0));
    assert_eq!("02      ILLEGAL $02", Instruction::lookup(0x02).text(0, 0));
}

#[test]
fn page_cross_penalty() {
    assert_eq!(0, Cpu::calc_page_cross_penalty(0xc0ff, 0xc000));
    assert_eq!(1, Cpu::calc_page_cross_penalty(0xc0ff, 0xc100));
}

#[test]
fn power_on_registers() {
    let r = Registers::new();
    assert_eq!((0xc000, 0xfd, 0, 0, 0, 0x24), (r.pc, r.sp, r.a, r.x, r.y, r.get_status()));
    assert!(r.get_flag(Flags::I));
    assert_eq!("PC c000 SP fd A 00 X 00 Y 00 P 24", r.to_string());
}

#[test]
fn program_trace() {
    // LDA #$10; ADC #$f5; STA $20; INC $20; LDX $20; loop: DEX; BNE loop
    let mut nes = console(&[0xa9, 0x10, 0x69, 0xf5, 0x85, 0x20, 0xe6, 0x20, 0xa6, 0x20, 0xca, 0xd0, 0xfd]);
    assert_eq!((0xc000, 0, 0, 0, 0xfd, 0x24, 0), state(&nes));
    nes.step().unwrap();
    assert_eq!((0xc002, 0x10, 0, 0, 0xfd, 0x24, 2), state(&nes));
    nes.step().unwrap();
    assert_eq!((0xc004, 0x05, 0, 0, 0xfd, 0x25, 4), state(&nes));
    nes.step().unwrap();
    assert_eq!((0xc006, 0x05, 0, 0, 0xfd, 0x25, 7), state(&nes));
    nes.step().unwrap();
    assert_eq!(0x06, nes.peek(0x20).unwrap());
    assert_eq!((0xc008, 0x05, 0, 0, 0xfd, 0x25, 12), state(&nes));
    nes.step().unwrap();
    assert_eq!((0xc00a, 0x05, 6, 0, 0xfd, 0x25, 15), state(&nes));
    nes.step().unwrap();
    assert_eq!((0xc00b, 0x05, 5, 0, 0xfd, 0x25, 17), state(&nes));
    nes.step().unwrap();
    assert_eq!((0xc00a, 0x05, 5, 0, 0xfd, 0x25, 20), state(&nes));
    for _ in 0..8 {
        nes.step().unwrap();
    }
    // the last DEX leaves 0 and sets Z; the branch falls through
    nes.step().unwrap();
    assert_eq!((0xc00b, 0x05, 0, 0, 0xfd, 0x27, 20 + 4 * 5 + 2), state(&nes));
    nes.step().unwrap();
    assert_eq!((0xc00d, 0x05, 0, 0, 0xfd, 0x27, 20 + 4 * 5 + 4), state(&nes));
}

#[test]
fn illegal_opcode_fails_the_step() {
    let mut nes = console(&[0x02]);
    assert!(matches!(nes.step(), Err(IronNesError::IllegalInstruction)));
}

#[test]
fn unmapped_read_fails_the_step() {
    // LDA $5000
    let mut nes = console(&[0xad, 0x00, 0x50]);
    assert!(matches!(nes.step(), Err(IronNesError::MemoryError(_))));
}

#[test]
fn sbc_and_compare_flags() {
    // SEC; LDA #$50; SBC #$b0; CMP #$a0
    let mut nes = console(&[0x38, 0xa9, 0x50, 0xe9, 0xb0, 0xc9, 0xa0]);
    nes.step().unwrap();
    nes.step().unwrap();
    nes.step().unwrap();
    // 0x50 - 0xb0 = 0xa0 with a borrow, and a signed overflow
    assert_eq!(0xa0, nes.get_cpu_registers().a);
    assert_eq!(0x24 | 0x80 | 0x40, nes.get_cpu_registers().get_status());
    nes.step().unwrap();
    assert_eq!(0x24 | 0x40 | 0x02 | 0x01, nes.get_cpu_registers().get_status());
}

#[test]
fn subroutine_call_and_return() {
    // JSR $c010; NOP ... at $c010: RTS
    let mut prog = vec![0x20, 0x10, 0xc0, 0xea];
    prog.resize(0x10, 0);
    prog.push(0x60);
    let mut nes = console(&prog);
    nes.step().unwrap();
    assert_eq!((0xc010, 0, 0, 0, 0xfb, 0x24, 6), state(&nes));
    assert_eq!(0xc0, nes.peek(0x1fd).unwrap());
    assert_eq!(0x02, nes.peek(0x1fc).unwrap());
    nes.step().unwrap();
    assert_eq!((0xc003, 0, 0, 0, 0xfd, 0x24, 12), state(&nes));
}

#[test]
fn brk_and_rti() {
    // BRK, padding; the handler at $c100 is RTI
    let mut prog = vec![0x00, 0xea];
    prog.resize(0x100, 0);
    prog.push(0x40);
    let mut nes = console(&prog);
    nes.step().unwrap();
    assert_eq!((0xc100, 0, 0, 0, 0xfa, 0x34, 7), state(&nes));
    assert_eq!(0x34, nes.peek(0x1fb).unwrap());
    nes.step().unwrap();
    assert_eq!((0xc002, 0, 0, 0, 0xfd, 0x34, 13), state(&nes));
}

#[test]
fn undocumented_dcp_and_lax() {
    // LDA #$05; STA $10; DCP $10; LAX $10
    let mut nes = console(&[0xa9, 0x05, 0x85, 0x10, 0xc7, 0x10, 0xa7, 0x10]);
    for _ in 0..3 {
        nes.step().unwrap();
    }
    assert_eq!(4, nes.peek(0x10).unwrap());
    // A (5) >= 4: carry set
    assert_eq!(0x25, nes.get_cpu_registers().get_status());
    nes.step().unwrap();
    assert_eq!((4, 4), (nes.get_cpu_registers().a, nes.get_cpu_registers().x));
}

#[test]
fn indexed_read_across_a_page_costs_a_cycle() {
    // LDX #$01; LDA $c0ff,X
    let mut nes = console(&[0xa2, 0x01, 0xbd, 0xff, 0xc0]);
    nes.step().unwrap();
    nes.step().unwrap();
    assert_eq!(2 + 5, nes.get_cycles());
    assert_eq!(0, nes.get_cpu_registers().a);
}

#[test]
fn jsr_moves_pc_for_harnesses() {
    let mut nes = console(&[0xea]);
    nes.jsr(0xc123).unwrap();
    assert_eq!(0xc123, nes.get_cpu_registers().pc);
    assert_eq!(6, nes.get_cycles());
}

#[test]
fn trace_line() {
    let mut nes = console(&[0xa9, 0x10]);
    assert_eq!(
        "c000 a9 10    LDA #$10            PC c000 SP fd A 00 X 00 Y 00 P 24 CYC 0",
        nes.log_state().unwrap()
    );
}

#[test]
fn run_stops_on_the_first_failure() {
    // INX; INX; illegal
    let mut nes = console(&[0xe8, 0xe8, 0x02]);
    assert!(matches!(nes.run(), Err(IronNesError::IllegalInstruction)));
    assert_eq!(2, nes.get_cpu_registers().x);
}

#[test]
fn irq_waits_while_interrupts_are_disabled() {
    let mut rom = vec![0u8; 0x4000];
    rom[0x3ffa] = 0x00;
    rom[0x3ffb] = 0xd0;
    rom[0x3ffe] = 0x00;
    rom[0x3fff] = 0xe0;
    let mut bus = Bus::new(Device::Ram(MemoryMappedRam::new(0)), Device::Ram(MemoryMappedRam::new(8)), rom, vec![]);
    let mut cpu = Cpu::new();
    cpu.interrupt(&mut bus, InterruptType::IRQ).unwrap();
    assert_eq!((0xc000, 0xfd), (cpu.registers.pc, cpu.registers.sp));

    cpu.registers.set_flag(Flags::I, false);
    cpu.interrupt(&mut bus, InterruptType::IRQ).unwrap();
    assert_eq!((0xe000, 0xfa), (cpu.registers.pc, cpu.registers.sp));
    assert!(cpu.registers.get_flag(Flags::I));
    // the pushed status has B clear
    assert_eq!(0x20, bus.cpu_load(0x1fb).unwrap());

    cpu.interrupt(&mut bus, InterruptType::NMI).unwrap();
    assert_eq!((0xd000, 0xf7), (cpu.registers.pc, cpu.registers.sp));
    assert_eq!(0xe0, bus.cpu_load(0x1fa).unwrap());
    assert_eq!(0x00, bus.cpu_load(0x1f9).unwrap());
    assert_eq!(0x24, bus.cpu_load(0x1f8).unwrap());
}
