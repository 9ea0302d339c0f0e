//! PPU tests: the VBlank flag's set and clear times, OAM access, the
//! register mirrors, the PPUADDR/PPUSCROLL write toggle, the palette
//! aliases and the sprite-0 hit.

use mu::cpu::Cpu;
use mu::emulator::Emulator;
use mu::ppu::Ppu;
use mu::registers::Oamaddr;
use mu::registers::Oamdata;
use mu::registers::Ppustatus;
use mu::screen::Screen;

const TICKS_PER_SCANLINE: usize = 341;

fn tick_scanlines(ppu: &mut Ppu, cpu: &mut Cpu, screen: &mut Screen, scanlines: usize) {
    for _ in 0..scanlines * TICKS_PER_SCANLINE {
        ppu.do_cycle(cpu, screen);
    }
}

#[test]
fn vbl_clear_time() {
    let mut ppu = Ppu::new();
    let mut cpu = Cpu::new();
    let mut screen = Screen::new();
    // VBlank opens when the counter reaches scanline 241...
    tick_scanlines(&mut ppu, &mut cpu, &mut screen, 240);
    assert_eq!(Ppustatus::read_debug(&ppu) & 0x80, 0x00);
    tick_scanlines(&mut ppu, &mut cpu, &mut screen, 1);
    assert_eq!(Ppustatus::read_debug(&ppu) & 0x80, 0x80);
    // ...and is still open on scanline 260...
    tick_scanlines(&mut ppu, &mut cpu, &mut screen, 19);
    assert_eq!(Ppustatus::read_debug(&ppu) & 0x80, 0x80);
    // ...but closes at the pre-render scanline 261.
    tick_scanlines(&mut ppu, &mut cpu, &mut screen, 1);
    assert_eq!(Ppustatus::read_debug(&ppu), 0x00);
}

#[test]
fn vblank_requests_nmi_when_enabled() {
    let mut ppu = Ppu::new();
    let mut cpu = Cpu::new();
    let mut screen = Screen::new();
    ppu.ppuctrl = 0x80;
    tick_scanlines(&mut ppu, &mut cpu, &mut screen, 241);
    assert_eq!(cpu.pending_interrupt, Some(mu::cpu::Interrupt::Nmi));
    assert!(screen.is_draw_requested());
}

#[test]
fn oam_read() {
    let mut ppu = Ppu::new();
    Oamaddr::write(&mut ppu, 0x10);
    Oamdata::write(&mut ppu, 0xab); // stores at $10, OAMADDR becomes $11
    Oamdata::write(&mut ppu, 0xcd); // stores at $11, OAMADDR becomes $12
    Oamaddr::write(&mut ppu, 0x10);
    assert_eq!(Oamdata::read(&mut ppu), 0xab); // reads do not increment
    assert_eq!(Oamdata::read(&mut ppu), 0xab);
    Oamaddr::write(&mut ppu, 0x11);
    assert_eq!(Oamdata::read(&mut ppu), 0xcd);
    assert_eq!(ppu.oam[0x10], 0xab);
    assert_eq!(ppu.oam[0x11], 0xcd);
}

#[test]
fn register_mirrors() {
    // P3: an access at 0x2000 + k*8 + r behaves like one at 0x2000 + r.
    let mut emulator = Emulator::new();
    mu::bus::write(&mut emulator, 0x3ff5, 0x21); // PPUADDR mirror (0x2005? no: 0x3ff5 -> 0x2005)
    assert_eq!(emulator.ppu.scroll_x, 0x21); // first PPUSCROLL write via mirror
    mu::bus::write(&mut emulator, 0x200d, 0x17); // 0x200d -> 0x2005, second write
    assert_eq!(emulator.ppu.scroll_y, 0x17);
    mu::bus::write(&mut emulator, 0x2008, 0x44); // -> PPUCTRL
    assert_eq!(emulator.ppu.ppuctrl, 0x44);
    // Reading PPUSTATUS through a mirror clears VBlank and the toggle.
    emulator.ppu.ppustatus = 0x80;
    emulator.ppu.flipflop = true;
    let status = mu::bus::read8(&mut emulator, 0x3ffa); // -> 0x2002
    assert_eq!(status, 0x80);
    assert_eq!(emulator.ppu.ppustatus, 0x00);
    assert!(!emulator.ppu.flipflop);
}

#[test]
fn ppuaddr_double_write() {
    // P13: writing $21 then $08 to PPUADDR yields the address $2108; a
    // PPUDATA write stores there and the address steps by one.
    let mut emulator = Emulator::new();
    mu::bus::write(&mut emulator, 0x2006, 0x21);
    mu::bus::write(&mut emulator, 0x2006, 0x08);
    assert_eq!(emulator.ppu.ppuaddr, 0x2108);
    mu::bus::write(&mut emulator, 0x2007, 0x5e);
    assert_eq!(emulator.ppu.memory.table[0x2108], 0x5e);
    assert_eq!(emulator.ppu.ppuaddr, 0x2109);
}

#[test]
fn shared_write_toggle() {
    // P5: an odd number of PPUSCROLL writes leaves the pair open; the
    // next PPUADDR write completes it as the low-byte write.
    let mut emulator = Emulator::new();
    mu::bus::write(&mut emulator, 0x2005, 0x7f); // scroll x, toggle now set
    mu::bus::write(&mut emulator, 0x2006, 0x34); // completes: low address byte
    assert_eq!(emulator.ppu.scroll_x, 0x7f);
    assert_eq!(emulator.ppu.ppuaddr, 0x0034);
    assert!(!emulator.ppu.flipflop);
    // And the other way round: one PPUADDR write, then PPUSCROLL sets y.
    mu::bus::write(&mut emulator, 0x2006, 0x21); // high byte, toggle now set
    mu::bus::write(&mut emulator, 0x2005, 0x42); // completes: y scroll
    assert_eq!(emulator.ppu.scroll_y, 0x42);
    assert!(!emulator.ppu.flipflop);
}

#[test]
fn status_read_clears_vblank_and_toggle() {
    // P6, through the public register protocol.
    let mut ppu = Ppu::new();
    ppu.ppustatus = 0xc0;
    ppu.flipflop = true;
    let value = Ppustatus::read(&mut ppu);
    assert_eq!(value, 0xc0);
    assert_eq!(ppu.ppustatus, 0x40); // VBlank gone, sprite-0 kept
    assert!(!ppu.flipflop);
}

#[test]
fn palette_aliases() {
    // P4: each of the four alias pairs is bidirectional.
    let mut emulator = Emulator::new();
    let pairs: [(u16, u16); 4] =
        [(0x3f10, 0x3f00), (0x3f14, 0x3f04), (0x3f18, 0x3f08), (0x3f1c, 0x3f0c)];
    let mut value: u8 = 0x01;
    for (alias, base) in pairs {
        // write the alias, read the base
        mu::bus::write(&mut emulator, 0x2006, (alias >> 8) as u8);
        mu::bus::write(&mut emulator, 0x2006, (alias & 0xff) as u8);
        mu::bus::write(&mut emulator, 0x2007, value);
        mu::bus::write(&mut emulator, 0x2006, (base >> 8) as u8);
        mu::bus::write(&mut emulator, 0x2006, (base & 0xff) as u8);
        assert_eq!(mu::bus::read8(&mut emulator, 0x2007), value); // palette reads skip the buffer
        // write the base, read the alias
        mu::bus::write(&mut emulator, 0x2006, (base >> 8) as u8);
        mu::bus::write(&mut emulator, 0x2006, (base & 0xff) as u8);
        mu::bus::write(&mut emulator, 0x2007, value + 0x20);
        mu::bus::write(&mut emulator, 0x2006, (alias >> 8) as u8);
        mu::bus::write(&mut emulator, 0x2006, (alias & 0xff) as u8);
        assert_eq!(mu::bus::read8(&mut emulator, 0x2007), value + 0x20);
        value += 1;
    }
}

#[test]
fn ppudata_buffered_read() {
    // Reads below the palette range return the previous buffer contents.
    let mut emulator = Emulator::new();
    mu::bus::write(&mut emulator, 0x2006, 0x21);
    mu::bus::write(&mut emulator, 0x2006, 0x00);
    mu::bus::write(&mut emulator, 0x2007, 0x11);
    mu::bus::write(&mut emulator, 0x2007, 0x22);
    mu::bus::write(&mut emulator, 0x2006, 0x21);
    mu::bus::write(&mut emulator, 0x2006, 0x00);
    assert_eq!(mu::bus::read8(&mut emulator, 0x2007), 0x00); // stale buffer
    assert_eq!(mu::bus::read8(&mut emulator, 0x2007), 0x11);
    assert_eq!(mu::bus::read8(&mut emulator, 0x2007), 0x22);
}

#[test]
fn oam_dma_copies_a_page() {
    // Writing V to $4014 copies RAM page V into OAM.
    let mut emulator = Emulator::new();
    for i in 0..256usize {
        emulator.ram[0x0200 + i] = i as u8;
    }
    mu::bus::write(&mut emulator, 0x2003, 0x00); // OAMADDR = 0
    mu::bus::write(&mut emulator, 0x4014, 0x02);
    for i in 0..256usize {
        assert_eq!(emulator.ppu.oam[i], i as u8);
    }
    assert_eq!(emulator.ppu.oamaddr, 0x00); // wrapped all the way round
}

#[test]
fn oam_dma_reads_rom_pages() {
    // The DMA source is any CPU page: from page 0x80 the bytes are the
    // cartridge's program ROM as the CPU sees it.
    let mut prg = vec![0u8; 0x4000];
    for i in 0..256usize {
        prg[i] = (i as u8) ^ 0x5a;
    }
    prg[0x3ffc] = 0x00;
    prg[0x3ffd] = 0xc0;
    let mut rom = vec![0x4e, 0x45, 0x53, 0x1a, 1, 0, 0, 0, 0, 0, 0, 0, 0, 0, 0, 0];
    rom.extend_from_slice(&prg);
    let mut emulator = Emulator::new();
    assert!(emulator.load(&rom).is_ok());
    mu::bus::write(&mut emulator, 0x2003, 0x00); // OAMADDR = 0
    mu::bus::write(&mut emulator, 0x4014, 0x80);
    for i in 0..256usize {
        assert_eq!(emulator.ppu.oam[i], (i as u8) ^ 0x5a);
        assert_eq!(emulator.ppu.oam[i], mu::bus::read8_debug(&emulator, 0x8000 + i as u16));
    }
}

#[test]
fn nametable_mirroring_folds_pairs() {
    // Horizontal mirroring pairs $2000 with $2400 and $2800 with $2C00;
    // vertical pairs $2000 with $2800 and $2400 with $2C00; a four-screen
    // cartridge keeps all four apart.
    let mut ppu = Ppu::new();
    assert_eq!(ppu.memory.mirroring, mu::ppu_memory::MIRROR_HORIZONTAL);
    ppu.memory.write(0x2005, 0x11);
    assert_eq!(ppu.memory.read(0x2405), 0x11);
    ppu.memory.write(0x2805, 0x22);
    assert_eq!(ppu.memory.read(0x2c05), 0x22);
    assert_eq!(ppu.memory.read(0x2005), 0x11);

    let mut ppu = Ppu::new();
    ppu.memory.mirroring = mu::ppu_memory::MIRROR_VERTICAL;
    ppu.memory.write(0x2005, 0x33);
    assert_eq!(ppu.memory.read(0x2805), 0x33);
    ppu.memory.write(0x2405, 0x44);
    assert_eq!(ppu.memory.read(0x2c05), 0x44);
    assert_eq!(ppu.memory.read(0x2405), 0x44);

    let mut ppu = Ppu::new();
    ppu.memory.mirroring = mu::ppu_memory::MIRROR_FOUR_SCREEN;
    ppu.memory.write(0x2005, 0x55);
    assert_eq!(ppu.memory.read(0x2405), 0x00);
    assert_eq!(ppu.memory.read(0x2805), 0x00);
    assert_eq!(ppu.memory.read(0x2005), 0x55);
}

#[test]
fn load_sets_mirroring_from_the_header() {
    let mut prg = vec![0u8; 0x4000];
    prg[0x3ffc] = 0x00;
    prg[0x3ffd] = 0xc0;
    let mut rom = vec![0x4e, 0x45, 0x53, 0x1a, 1, 0, 0x01, 0, 0, 0, 0, 0, 0, 0, 0, 0];
    rom.extend_from_slice(&prg);
    let mut emulator = Emulator::new();
    assert!(emulator.load(&rom).is_ok());
    assert_eq!(emulator.ppu.memory.mirroring, mu::ppu_memory::MIRROR_VERTICAL);
    rom[6] = 0x08; // four-screen overrides the pairing bit
    let mut emulator = Emulator::new();
    assert!(emulator.load(&rom).is_ok());
    assert_eq!(emulator.ppu.memory.mirroring, mu::ppu_memory::MIRROR_FOUR_SCREEN);
    rom[6] = 0x00;
    let mut emulator = Emulator::new();
    assert!(emulator.load(&rom).is_ok());
    assert_eq!(emulator.ppu.memory.mirroring, mu::ppu_memory::MIRROR_HORIZONTAL);
}

#[test]
fn background_rendering_fills_the_frame_row() {
    let mut ppu = Ppu::new();
    let mut cpu = Cpu::new();
    let mut screen = Screen::new();
    // Tile 0 (the whole zeroed nametable): pattern rows 0..=5 carry color
    // number 1, rows 6 and 7 are transparent; the block uses palette 0.
    for row in 0..6usize {
        ppu.memory.table[row] = 0xff;
    }
    ppu.memory.palette[0] = 0x0f; // backdrop
    ppu.memory.palette[1] = 0x21; // palette 0, color 1
    ppu.ppumask = 0x08; // background only
    tick_scanlines(&mut ppu, &mut cpu, &mut screen, 9);
    // Scanline 5 reads pattern row 5, which is opaque everywhere.
    let frame = screen.get_frame_buffer();
    assert_eq!(frame[5 * 256 + 0], 0x21);
    assert_eq!(frame[5 * 256 + 137], 0x21);
    assert_eq!(frame[5 * 256 + 255], 0x21);
    // Scanline 6 reads pattern row 6, which is transparent, so the
    // backdrop entry shows.
    assert_eq!(frame[6 * 256 + 42], 0x0f);
}

#[test]
fn sprite_zero_hit() {
    // P14: an opaque sprite-0 pixel over an opaque background pixel sets
    // PPUSTATUS bit 6 during the scanline's render; the pre-render
    // scanline clears it.
    let mut ppu = Ppu::new();
    let mut cpu = Cpu::new();
    let mut screen = Screen::new();
    // Tile 0 of the background pattern table: all pixels opaque.
    for row in 0..8usize {
        ppu.memory.table[row] = 0xff;
    }
    // Sprite 0 at (100, 50) with the same opaque tile.
    ppu.oam[0] = 50; // y
    ppu.oam[1] = 0; // tile
    ppu.oam[2] = 0; // attributes
    ppu.oam[3] = 100; // x
    ppu.ppumask = 0x18; // background and sprites enabled
    tick_scanlines(&mut ppu, &mut cpu, &mut screen, 49);
    assert_eq!(Ppustatus::read_debug(&ppu) & 0x40, 0x00);
    tick_scanlines(&mut ppu, &mut cpu, &mut screen, 3);
    assert_eq!(Ppustatus::read_debug(&ppu) & 0x40, 0x40);
    // The flag survives VBlank and clears at scanline 261.
    tick_scanlines(&mut ppu, &mut cpu, &mut screen, 261 - 52);
    assert_eq!(Ppustatus::read_debug(&ppu) & 0x40, 0x00);
}
