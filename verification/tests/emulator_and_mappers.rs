//! Whole-machine scenarios (boot, arithmetic overflow, joypad strobe,
//! cartridge rejection) and the mapper variants' banking behavior.

use mu::cpu::Cpu;
use mu::emulator::CartridgeError;
use mu::emulator::Emulator;
use mu::mappers::create_mapper;
use mu::mappers::Mapper;

fn build_rom(program: &[u8]) -> Vec<u8> {
    let mut prg = vec![0u8; 0x4000];
    prg[..program.len()].copy_from_slice(program);
    prg[0x3ffc] = 0x00;
    prg[0x3ffd] = 0xc0;
    let mut rom = vec![0x4e, 0x45, 0x53, 0x1a, 1, 0, 0, 0, 0, 0, 0, 0, 0, 0, 0, 0];
    rom.extend_from_slice(&prg);
    rom
}

#[test]
fn reset_and_boot() {
    // P10: after load, PC comes from the reset vector; S and P hold
    // their cold-boot values.
    let mut emulator = Emulator::new();
    let rom = build_rom(&[0xea]);
    assert!(emulator.load(&rom).is_ok());
    assert_eq!(emulator.cpu.pc, 0xc000);
    assert_eq!(emulator.cpu.s, 0xfd);
    assert_eq!(emulator.cpu.p, 0x24);
}

#[test]
fn adc_overflow() {
    // P11: $50 + $50 overflows signed but not unsigned arithmetic.
    let mut emulator = Emulator::new();
    let rom = build_rom(&[
        0xa9, 0x50, // LDA #$50
        0x69, 0x50, // ADC #$50
    ]);
    assert!(emulator.load(&rom).is_ok());
    assert!(Cpu::execute_next_instruction(&mut emulator).is_some());
    assert!(Cpu::execute_next_instruction(&mut emulator).is_some());
    assert_eq!(emulator.cpu.a, 0xa0);
    assert_eq!(emulator.cpu.p & 0x80, 0x80); // N = 1
    assert_eq!(emulator.cpu.p & 0x40, 0x40); // V = 1
    assert_eq!(emulator.cpu.p & 0x02, 0x00); // Z = 0
    assert_eq!(emulator.cpu.p & 0x01, 0x00); // C = 0
}

#[test]
fn joypad_strobe() {
    // P15: with A and Start held, strobing then reading eight times
    // yields 1,0,0,1,0,0,0,0; the ninth read yields 1.
    let mut emulator = Emulator::new();
    emulator.joypad.press_a_button();
    emulator.joypad.press_start_button();
    mu::bus::write(&mut emulator, 0x4016, 1);
    mu::bus::write(&mut emulator, 0x4016, 0);
    let expected = [1u8, 0, 0, 1, 0, 0, 0, 0];
    for bit in expected {
        assert_eq!(mu::bus::read8(&mut emulator, 0x4016), bit);
    }
    assert_eq!(mu::bus::read8(&mut emulator, 0x4016), 1);
}

#[test]
fn joypad_strobe_reflects_a_button() {
    let mut emulator = Emulator::new();
    mu::bus::write(&mut emulator, 0x4016, 1);
    assert_eq!(mu::bus::read8(&mut emulator, 0x4016), 0);
    emulator.joypad.press_a_button();
    assert_eq!(mu::bus::read8(&mut emulator, 0x4016), 1);
    emulator.joypad.release_a_button();
    assert_eq!(mu::bus::read8(&mut emulator, 0x4016), 0);
}

#[test]
fn load_rejects_bad_magic() {
    let mut emulator = Emulator::new();
    let mut rom = build_rom(&[0xea]);
    rom[0] = 0x4d;
    assert_eq!(emulator.load(&rom), Err(CartridgeError::InvalidFormat));
}

#[test]
fn load_rejects_truncated_image() {
    let mut emulator = Emulator::new();
    let mut rom = build_rom(&[0xea]);
    rom.truncate(0x2000);
    assert_eq!(emulator.load(&rom), Err(CartridgeError::InvalidFormat));
    rom.truncate(8);
    assert_eq!(emulator.load(&rom), Err(CartridgeError::InvalidFormat));
}

#[test]
fn load_rejects_trainer() {
    let mut emulator = Emulator::new();
    let mut rom = build_rom(&[0xea]);
    rom[6] |= 0x04;
    assert_eq!(emulator.load(&rom), Err(CartridgeError::InvalidFormat));
}

#[test]
fn load_rejects_unsupported_mapper() {
    let mut emulator = Emulator::new();
    let mut rom = build_rom(&[0xea]);
    rom[6] = 0x30; // mapper 3
    assert_eq!(emulator.load(&rom), Err(CartridgeError::UnsupportedMapper));
}

fn banked_prg(banks_16k: usize) -> Vec<u8> {
    // Each 16 KiB bank is filled with its own index.
    let mut prg = Vec::new();
    for bank in 0..banks_16k {
        prg.extend_from_slice(&vec![bank as u8; 0x4000]);
    }
    prg
}

#[test]
fn nrom_mirrors_a_16k_rom() {
    let mapper = create_mapper(0, banked_prg(1)).unwrap();
    assert_eq!(mapper.read(0x8000), 0);
    assert_eq!(mapper.read(0xc000), 0); // 16 KiB image mirrored
    let mut mapper = mapper;
    mapper.write(0x6000, 0x55); // program RAM
    assert_eq!(mapper.read(0x6000), 0x55);
    mapper.write(0x8000, 0x77); // ROM writes ignored
    assert_eq!(mapper.read(0x8000), 0);
}

#[test]
fn uxrom_switches_the_low_bank() {
    let mut mapper = create_mapper(2, banked_prg(4)).unwrap();
    assert_eq!(mapper.read(0x8000), 0);
    assert_eq!(mapper.read(0xc000), 3); // fixed to the last bank
    mapper.write(0x8000, 2);
    assert_eq!(mapper.read(0x8000), 2);
    assert_eq!(mapper.read(0xc000), 3); // still fixed
}

#[test]
fn axrom_switches_32k_banks() {
    let mut mapper = create_mapper(7, banked_prg(4)).unwrap();
    assert_eq!(mapper.read(0x8000), 0);
    assert_eq!(mapper.read(0xc000), 1); // second half of the 32 KiB bank
    mapper.write(0x8000, 1);
    assert_eq!(mapper.read(0x8000), 2);
    assert_eq!(mapper.read(0xc000), 3);
}

#[test]
fn mmc1_serial_bank_select() {
    let mut mapper = create_mapper(1, banked_prg(4)).unwrap();
    // Five serial writes to $8000..$9FFF set the control register: PRG
    // mode 3 (fix the last bank high, switch the low one). The register
    // value 0b01100 arrives least significant bit first.
    for bit in [0u8, 0, 1, 1, 0] {
        mapper.write(0x8000, bit);
    }
    // Five serial writes to $E000..$FFFF select PRG bank 2.
    for bit in [0u8, 1, 0, 0, 0] {
        mapper.write(0xe000, bit);
    }
    assert_eq!(mapper.read(0x8000), 2);
    assert_eq!(mapper.read(0xc000), 3); // fixed to the last bank
    // A write with bit 7 set resets the shift register and the mode.
    mapper.write(0x8000, 0x80);
    assert_eq!(mapper.read(0xc000), 3);
}

#[test]
fn mmc3_bank_select() {
    let mut mapper = create_mapper(4, banked_prg(4)).unwrap(); // eight 8 KiB banks
    // Select register 6 (an even write), then point the switchable slot
    // at 8 KiB bank 5 (an odd write carries bank data).
    mapper.write(0x8000, 6);
    mapper.write(0x8001, 5);
    assert_eq!(mapper.read(0x8000), 2); // 8 KiB bank 5 lies in 16 KiB bank 2
    assert_eq!(mapper.read(0xa000), 0); // second slot still on 8 KiB bank 0
    assert_eq!(mapper.read(0xc000), 3); // fixed to the second-last bank
    assert_eq!(mapper.read(0xe000), 3); // fixed to the last bank
    // An odd write to $A000..$BFFF gates the program RAM.
    mapper.write(0xa001, 0x81);
    mapper.write(0x6000, 0x2a);
    assert_eq!(mapper.read(0x6000), 0x2a);
}

#[test]
fn create_mapper_rejects_bad_input() {
    assert!(create_mapper(3, banked_prg(1)).is_none());
    assert!(create_mapper(0, Vec::new()).is_none());
    assert!(create_mapper(0, vec![0u8; 0x2000]).is_none());
}

#[test]
fn vblank_nmi_reaches_the_cpu() {
    // Enable the VBlank interrupt, spin, and let the PPU's NMI pull the
    // CPU through the vector at the start of the blanking interval.
    let mut rom = build_rom(&[
        0xa9, 0x80, // LDA #$80
        0x8d, 0x00, 0x20, // STA $2000 (PPUCTRL: NMI on)
        0x4c, 0x05, 0xc0, // JMP $C005 (spin)
    ]);
    rom[16 + 0x3ffa] = 0x20; // NMI vector -> $C020
    rom[16 + 0x3ffb] = 0xc0;
    rom[16 + 0x20] = 0xa9; // $C020: LDA #$77
    rom[16 + 0x21] = 0x77;
    let mut emulator = Emulator::new();
    assert!(emulator.load(&rom).is_ok());
    let mut entered_handler = false;
    for _ in 0..100000 {
        assert!(emulator.step());
        if emulator.cpu.a == 0x77 {
            // The step that services the interrupt fetches from the
            // vector's target, so the handler's first instruction has
            // already run.
            entered_handler = true;
            break;
        }
    }
    assert!(entered_handler);
    assert_eq!(emulator.cpu.pc, 0xc022);
    assert_eq!(emulator.cpu.p & 0x04, 0x04); // interrupts disabled on entry
    assert_eq!(emulator.ram[0x01fb], 0xa4); // the pushed status byte
}

#[test]
fn step_ticks_the_ppu_three_times_per_cycle() {
    let mut emulator = Emulator::new();
    let rom = build_rom(&[0xea, 0xea]); // two NOPs, 2 cycles each
    assert!(emulator.load(&rom).is_ok());
    assert!(emulator.step());
    assert_eq!(emulator.ppu.cycle_counter, 6);
    assert!(emulator.step());
    assert_eq!(emulator.ppu.cycle_counter, 12);
}
