//! Control-flow CPU tests: branches, the stack, jumps, subroutines,
//! returns, software interrupts and the wrap-around corner cases.

use mu::cpu::Cpu;
use mu::emulator::Emulator;

fn build_rom(program: &[u8]) -> Vec<u8> {
    let mut prg = vec![0u8; 0x4000];
    prg[..program.len()].copy_from_slice(program);
    prg[0x3ffc] = 0x00;
    prg[0x3ffd] = 0xc0;
    let mut rom = vec![0x4e, 0x45, 0x53, 0x1a, 1, 0, 0, 0, 0, 0, 0, 0, 0, 0, 0, 0];
    rom.extend_from_slice(&prg);
    rom
}

fn boot(program: &[u8]) -> Emulator {
    let mut emulator = Emulator::new();
    let rom = build_rom(program);
    assert!(emulator.load(&rom).is_ok());
    emulator
}

fn boot_rom(rom: &Vec<u8>) -> Emulator {
    let mut emulator = Emulator::new();
    assert!(emulator.load(rom).is_ok());
    emulator
}

fn run(emulator: &mut Emulator, instructions: usize) {
    for _ in 0..instructions {
        assert!(Cpu::execute_next_instruction(emulator).is_some());
    }
}

#[test]
fn branches() {
    let mut rom = build_rom(&[
        0xa2, 0x02, // LDX #$02 (Z clear)
        0xd0, 0x02, // BNE +2 (taken, same page: 3 cycles)
        0xa9, 0xff, // LDA #$FF (skipped)
        0xa9, 0x01, // LDA #$01
        0xf0, 0x02, // BEQ +2 (not taken: 2 cycles)
        0x4c, 0xf8, 0xc0, // JMP $C0F8
    ]);
    rom[16 + 0xf8] = 0xd0; // BNE +$10: from $C0FA to $C10A, crossing a page
    rom[16 + 0xf9] = 0x10;
    let mut emulator = boot_rom(&rom);
    assert_eq!(Cpu::execute_next_instruction(&mut emulator), Some(2)); // LDX
    assert_eq!(Cpu::execute_next_instruction(&mut emulator), Some(3)); // BNE taken
    assert_eq!(emulator.cpu.pc, 0xc006);
    run(&mut emulator, 1);
    assert_eq!(emulator.cpu.a, 0x01);
    assert_eq!(Cpu::execute_next_instruction(&mut emulator), Some(2)); // BEQ not taken
    run(&mut emulator, 1); // JMP $C0F8
    assert_eq!(Cpu::execute_next_instruction(&mut emulator), Some(4)); // taken + crossed
    assert_eq!(emulator.cpu.pc, 0xc10a);
}

#[test]
fn stack() {
    let mut emulator = boot(&[
        0xa9, 0x42, // LDA #$42
        0x48,       // PHA
        0xa9, 0x00, // LDA #$00
        0x68,       // PLA
        0x08,       // PHP
        0xa9, 0xff, // LDA #$FF
        0x28,       // PLP
        0xa2, 0x00, // LDX #$00
        0x9a,       // TXS
        0x48,       // PHA
        0x48,       // PHA
    ]);
    run(&mut emulator, 4);
    assert_eq!(emulator.cpu.a, 0x42); // PHA then PLA round trip
    assert_eq!(emulator.cpu.s, 0xfd);
    run(&mut emulator, 3);
    assert_eq!(emulator.ram[0x01fd], 0x34); // PHP pushed P | 0x30
    assert_eq!(emulator.cpu.p, 0x24); // PLP restored P exactly
    run(&mut emulator, 4);
    assert_eq!(emulator.ram[0x0100], 0xff); // push at S=0 lands at $0100
    assert_eq!(emulator.ram[0x01ff], 0xff); // and wraps to $01FF
    assert_eq!(emulator.cpu.s, 0xfe);
}

#[test]
fn jmp_jsr() {
    let mut emulator = boot(&[
        0x4c, 0x05, 0xc0, // JMP $C005
        0xea, 0xea,       // (skipped)
        0x20, 0x0b, 0xc0, // JSR $C00B (pushes $C007)
        0xea, 0xea, 0xea, // (skipped)
        0xa9, 0x05,       // $C00B: LDA #$05
    ]);
    run(&mut emulator, 1);
    assert_eq!(emulator.cpu.pc, 0xc005);
    run(&mut emulator, 1);
    assert_eq!(emulator.cpu.pc, 0xc00b);
    assert_eq!(emulator.ram[0x01fd], 0xc0); // return address high
    assert_eq!(emulator.ram[0x01fc], 0x07); // return address low (minus one)
    assert_eq!(emulator.cpu.s, 0xfb);
    run(&mut emulator, 1);
    assert_eq!(emulator.cpu.a, 0x05);
}

#[test]
fn rts() {
    let mut emulator = boot(&[
        0x20, 0x06, 0xc0, // JSR $C006
        0xa9, 0x09,       // LDA #$09
        0xea,             // NOP
        0xa2, 0x07,       // $C006: LDX #$07
        0x60,             // RTS
    ]);
    run(&mut emulator, 3);
    assert_eq!(emulator.cpu.pc, 0xc003); // RTS returned past the JSR
    assert_eq!(emulator.cpu.s, 0xfd);
    run(&mut emulator, 1);
    assert_eq!(emulator.cpu.a, 0x09);
    assert_eq!(emulator.cpu.x, 0x07);
}

#[test]
fn rti() {
    let mut emulator = boot(&[
        0xa9, 0xc0, // LDA #$C0
        0x48,       // PHA (return address high)
        0xa9, 0x10, // LDA #$10
        0x48,       // PHA (return address low)
        0xa9, 0x65, // LDA #$65
        0x48,       // PHA (status to restore)
        0x40,       // RTI
    ]);
    run(&mut emulator, 7);
    assert_eq!(emulator.cpu.pc, 0xc010);
    assert_eq!(emulator.cpu.p, 0x65); // bit 5 kept, bit 4 clear
    assert_eq!(emulator.cpu.s, 0xfd);
}

#[test]
fn brk() {
    let mut rom = build_rom(&[
        0x00, // BRK
    ]);
    rom[16 + 0x3ffe] = 0x10; // IRQ/BRK vector -> $C010
    rom[16 + 0x3fff] = 0xc0;
    rom[16 + 0x10] = 0xa9; // $C010: LDA #$0B
    rom[16 + 0x11] = 0x0b;
    let mut emulator = boot_rom(&rom);
    assert_eq!(Cpu::execute_next_instruction(&mut emulator), Some(7));
    assert_eq!(emulator.cpu.pc, 0xc010);
    assert_eq!(emulator.ram[0x01fd], 0xc0); // pushed PC+1 high
    assert_eq!(emulator.ram[0x01fc], 0x02); // pushed PC+1 low
    assert_eq!(emulator.ram[0x01fb], 0x34); // pushed P with bits 4 and 5 set
    assert_eq!(emulator.cpu.p & 0x04, 0x04); // interrupts disabled
    assert_eq!(emulator.cpu.s, 0xfa);
    run(&mut emulator, 1);
    assert_eq!(emulator.cpu.a, 0x0b);
}

#[test]
fn special() {
    // The indirect-jump page-boundary quirk plus the LAX and SAX
    // unofficial opcodes.
    let mut emulator = boot(&[
        0xa9, 0x00, // LDA #$00
        0x8d, 0xff, 0x02, // STA $02FF (pointer low byte)
        0xa9, 0x04, // LDA #$04
        0x8d, 0x00, 0x02, // STA $0200 (high byte fetched by the quirk)
        0xa9, 0x80, // LDA #$80
        0x8d, 0x00, 0x03, // STA $0300 (high byte a correct fetch would use)
        0x6c, 0xff, 0x02, // JMP ($02FF)
    ]);
    run(&mut emulator, 7);
    // The high byte comes from $0200, the start of the pointer's own page.
    assert_eq!(emulator.cpu.pc, 0x0400);

    let mut emulator = boot(&[
        0xab, 0x55, // LAX #$55
        0xa9, 0xf0, // LDA #$F0
        0xa2, 0x3c, // LDX #$3C
        0x87, 0x30, // SAX $30
    ]);
    run(&mut emulator, 1);
    assert_eq!(emulator.cpu.a, 0x55);
    assert_eq!(emulator.cpu.x, 0x55);
    run(&mut emulator, 3);
    assert_eq!(emulator.ram[0x30], 0xf0 & 0x3c);
}

#[test]
fn abs_x_wrap() {
    let mut emulator = boot(&[
        0xa9, 0x5a, // LDA #$5A
        0x85, 0x01, // STA $01
        0xa2, 0x02, // LDX #$02
        0xbd, 0xff, 0xff, // LDA $FFFF,X -> wraps to $0001
    ]);
    run(&mut emulator, 3);
    assert_eq!(Cpu::execute_next_instruction(&mut emulator), Some(5)); // crossed
    assert_eq!(emulator.cpu.a, 0x5a);
}

#[test]
fn branch_wrap() {
    let mut rom = build_rom(&[
        0xa2, 0x01, // LDX #$01 (Z clear)
        0x4c, 0xf0, 0xff, // JMP $FFF0
    ]);
    rom[16 + 0x3ff0] = 0xd0; // BNE +$10: from $FFF2 wraps to $0002
    rom[16 + 0x3ff1] = 0x10;
    let mut emulator = boot_rom(&rom);
    run(&mut emulator, 2);
    assert_eq!(emulator.cpu.pc, 0xfff0);
    run(&mut emulator, 1);
    assert_eq!(emulator.cpu.pc, 0x0002); // PC wrapped around the top
}

#[test]
fn halt_on_undefined_opcode() {
    let mut emulator = boot(&[
        0xea, // NOP
        0x02, // halt opcode
    ]);
    assert!(emulator.step());
    assert!(!emulator.step());
    // The machine stays where the halt left it.
    assert_eq!(emulator.cpu.pc, 0xc002);
}
