//! Instruction-level CPU tests: each builds a small cartridge image in
//! memory, boots it (reset vector 0xC000) and checks registers, flags and
//! memory after stepping through a short program.

use mu::cpu::Cpu;
use mu::bus::read8_debug;
use mu::emulator::Emulator;

fn build_rom(program: &[u8]) -> Vec<u8> {
    let mut prg = vec![0u8; 0x4000];
    prg[..program.len()].copy_from_slice(program);
    prg[0x3ffc] = 0x00;
    prg[0x3ffd] = 0xc0;
    let mut rom = vec![0x4e, 0x45, 0x53, 0x1a, 1, 0, 0, 0, 0, 0, 0, 0, 0, 0, 0, 0];
    rom.extend_from_slice(&prg);
    rom
}

fn boot(program: &[u8]) -> Emulator {
    let mut emulator = Emulator::new();
    let rom = build_rom(program);
    assert!(emulator.load(&rom).is_ok());
    emulator
}

fn run(emulator: &mut Emulator, instructions: usize) {
    for _ in 0..instructions {
        assert!(Cpu::execute_next_instruction(emulator).is_some());
    }
}

#[test]
fn basics() {
    let mut emulator = boot(&[
        0xa9, 0x42, // LDA #$42
        0x85, 0x10, // STA $10
        0xa9, 0x00, // LDA #$00
        0xa5, 0x10, // LDA $10
    ]);
    run(&mut emulator, 2);
    assert_eq!(read8_debug(&emulator, 0x0010), 0x42);
    run(&mut emulator, 1);
    assert_eq!(emulator.cpu.a, 0x00);
    assert_eq!(emulator.cpu.p, 0x26); // zero flag set
    run(&mut emulator, 1);
    assert_eq!(emulator.cpu.a, 0x42);
    assert_eq!(emulator.cpu.p, 0x24);
}

#[test]
fn implied() {
    let mut emulator = boot(&[
        0xa2, 0x10, // LDX #$10
        0xe8,       // INX
        0xca, 0xca, // DEX DEX
        0x8a,       // TXA
        0xa8,       // TAY
        0xc8,       // INY
        0x38,       // SEC
        0x18,       // CLC
        0x9a,       // TXS
        0xba,       // TSX
    ]);
    run(&mut emulator, 11);
    assert_eq!(emulator.cpu.x, 0x0f);
    assert_eq!(emulator.cpu.a, 0x0f);
    assert_eq!(emulator.cpu.y, 0x10);
    assert_eq!(emulator.cpu.s, 0x0f);
    assert_eq!(emulator.cpu.p & 0x01, 0); // carry cleared again
}

#[test]
fn immediate() {
    let mut emulator = boot(&[
        0xa9, 0x50, // LDA #$50
        0x69, 0x50, // ADC #$50
        0x29, 0xf0, // AND #$F0
        0x09, 0x0f, // ORA #$0F
        0x49, 0xff, // EOR #$FF
        0xc9, 0x50, // CMP #$50
    ]);
    run(&mut emulator, 2);
    assert_eq!(emulator.cpu.a, 0xa0);
    assert_eq!(emulator.cpu.p & 0x80, 0x80); // negative
    assert_eq!(emulator.cpu.p & 0x40, 0x40); // signed overflow
    assert_eq!(emulator.cpu.p & 0x03, 0x00); // no carry, not zero
    run(&mut emulator, 1);
    assert_eq!(emulator.cpu.a, 0xa0);
    run(&mut emulator, 1);
    assert_eq!(emulator.cpu.a, 0xaf);
    run(&mut emulator, 1);
    assert_eq!(emulator.cpu.a, 0x50);
    run(&mut emulator, 1);
    assert_eq!(emulator.cpu.p & 0x01, 0x01); // carry: A >= operand
    assert_eq!(emulator.cpu.p & 0x02, 0x02); // zero: A == operand
}

#[test]
fn zero_page() {
    let mut emulator = boot(&[
        0xa9, 0x77, // LDA #$77
        0x85, 0x20, // STA $20
        0xe6, 0x20, // INC $20
        0xc6, 0x20, // DEC $20
        0xc6, 0x20, // DEC $20
        0xa5, 0x20, // LDA $20
    ]);
    run(&mut emulator, 3);
    assert_eq!(read8_debug(&emulator, 0x0020), 0x78);
    run(&mut emulator, 3);
    assert_eq!(emulator.cpu.a, 0x76);
}

#[test]
fn zp_xy() {
    let mut emulator = boot(&[
        0xa2, 0x05, // LDX #$05
        0xa9, 0xaa, // LDA #$AA
        0x95, 0xf0, // STA $F0,X -> $F5
        0xa2, 0x20, // LDX #$20
        0x95, 0xf0, // STA $F0,X -> wraps to $10
        0xa0, 0x04, // LDY #$04
        0xb6, 0x0c, // LDX $0C,Y -> $10
    ]);
    run(&mut emulator, 7);
    assert_eq!(read8_debug(&emulator, 0x00f5), 0xaa);
    assert_eq!(read8_debug(&emulator, 0x0010), 0xaa);
    assert_eq!(emulator.cpu.x, 0xaa);
}

#[test]
fn absolute() {
    let mut emulator = boot(&[
        0xa9, 0x3c, // LDA #$3C
        0x8d, 0x34, 0x02, // STA $0234
        0xad, 0x34, 0x0a, // LDA $0A34 (RAM mirror of $0234)
        0xee, 0x34, 0x02, // INC $0234
        0xad, 0x34, 0x02, // LDA $0234
    ]);
    run(&mut emulator, 3);
    assert_eq!(emulator.cpu.a, 0x3c);
    run(&mut emulator, 2);
    assert_eq!(emulator.cpu.a, 0x3d);
    assert_eq!(read8_debug(&emulator, 0x1a34), 0x3d);
}

#[test]
fn abs_xy() {
    let mut emulator = boot(&[
        0xa9, 0x11, // LDA #$11
        0x8d, 0x01, 0x03, // STA $0301
        0xa2, 0x02, // LDX #$02
        0xbd, 0xff, 0x02, // LDA $02FF,X (crosses into $0301)
        0xa0, 0x01, // LDY #$01
        0xb9, 0x00, 0x03, // LDA $0300,Y (no crossing)
    ]);
    run(&mut emulator, 3);
    assert_eq!(Cpu::execute_next_instruction(&mut emulator), Some(5)); // page crossed
    assert_eq!(emulator.cpu.a, 0x11);
    run(&mut emulator, 1);
    assert_eq!(Cpu::execute_next_instruction(&mut emulator), Some(4));
    assert_eq!(emulator.cpu.a, 0x11);
}

#[test]
fn ind_x() {
    let mut emulator = boot(&[
        0xa9, 0x21, // LDA #$21
        0x85, 0x44, // STA $44 (pointer low, $40 + X)
        0xa9, 0x03, // LDA #$03
        0x85, 0x45, // STA $45 (pointer high)
        0xa9, 0x66, // LDA #$66
        0x8d, 0x21, 0x03, // STA $0321
        0xa2, 0x04, // LDX #$04
        0xa1, 0x40, // LDA ($40,X)
        // pointer fetch wrapping inside the zero page:
        0xa9, 0x21, // LDA #$21
        0x85, 0xff, // STA $FF (pointer low)
        0xa9, 0x03, // LDA #$03
        0x85, 0x00, // STA $00 (pointer high, wrapped)
        0xa2, 0x00, // LDX #$00
        0xa1, 0xff, // LDA ($FF,X)
    ]);
    run(&mut emulator, 8);
    assert_eq!(emulator.cpu.a, 0x66);
    run(&mut emulator, 6);
    assert_eq!(emulator.cpu.a, 0x66);
}

#[test]
fn ind_y() {
    let mut emulator = boot(&[
        0xa9, 0xff, // LDA #$FF
        0x85, 0x60, // STA $60 (base low)
        0xa9, 0x02, // LDA #$02
        0x85, 0x61, // STA $61 (base high -> $02FF)
        0xa9, 0x77, // LDA #$77
        0x8d, 0x01, 0x03, // STA $0301
        0xa0, 0x02, // LDY #$02
        0xb1, 0x60, // LDA ($60),Y -> $0301, page crossed
    ]);
    run(&mut emulator, 7);
    assert_eq!(Cpu::execute_next_instruction(&mut emulator), Some(6)); // 5 + crossing
    assert_eq!(emulator.cpu.a, 0x77);
}
