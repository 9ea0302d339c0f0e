//! The picture processing unit: registers, object attribute memory, the
//! scanline/cycle counters and the rendering pass.
//!
//! The PPU runs three ticks per CPU cycle. A whole scanline's worth of
//! pixels is produced when the cycle counter wraps; scanline 241 opens the
//! vertical blanking interval (setting the VBlank flag and, when enabled,
//! requesting a non-maskable interrupt) and the pre-render scanline 261
//! closes it.

use vstd::prelude::*;

use crate::cpu::Cpu;
use crate::cpu::Interrupt;
use crate::ppu_memory::PpuMemory;
use crate::ppu_memory::PpuMemV;
use crate::screen::FRAME_WIDTH;
use crate::screen::Screen;
use crate::screen::ScreenV;

verus! {

pub const OAM_SIZE: usize = 256;

pub struct Ppu {
    pub ppuctrl: u8,
    pub ppumask: u8,
    pub ppustatus: u8,
    pub oamaddr: u8,
    pub scroll_x: u8,
    pub scroll_y: u8,
    pub ppuaddr: u16,
    pub ppudata_buffer: u8,
    pub flipflop: bool,
    pub cycle_counter: u16,
    pub scanline_counter: u16,
    pub oam: Vec<u8>,
    pub memory: PpuMemory,
}

#[verifier::ext_equal]
pub ghost struct PpuV {
    pub ppuctrl: u8,
    pub ppumask: u8,
    pub ppustatus: u8,
    pub oamaddr: u8,
    pub scroll_x: u8,
    pub scroll_y: u8,
    pub ppuaddr: u16,
    pub ppudata_buffer: u8,
    pub flipflop: bool,
    pub cycle_counter: u16,
    pub scanline_counter: u16,
    pub oam: Seq<u8>,
    pub memory: PpuMemV,
}

impl View for Ppu {
    type V = PpuV;

    open spec fn view(&self) -> PpuV {
        PpuV {
            ppuctrl: self.ppuctrl,
            ppumask: self.ppumask,
            ppustatus: self.ppustatus,
            oamaddr: self.oamaddr,
            scroll_x: self.scroll_x,
            scroll_y: self.scroll_y,
            ppuaddr: self.ppuaddr,
            ppudata_buffer: self.ppudata_buffer,
            flipflop: self.flipflop,
            cycle_counter: self.cycle_counter,
            scanline_counter: self.scanline_counter,
            oam: self.oam@,
            memory: self.memory@,
        }
    }
}

impl PpuV {
    pub open spec fn wf(self) -> bool {
        &&& self.oam.len() == OAM_SIZE
        &&& self.memory.wf()
        &&& self.ppuaddr < 0x4000
        &&& self.cycle_counter <= 340
        &&& self.scanline_counter <= 261
        &&& self.ppustatus & 0x1f == 0
    }

    // ------------------------------------------- the register protocol ---

    pub open spec fn ctrl_written(self, value: u8) -> PpuV {
        PpuV { ppuctrl: value, ..self }
    }

    pub open spec fn mask_written(self, value: u8) -> PpuV {
        PpuV { ppumask: value, ..self }
    }

    /// The value a PPUSTATUS read returns.
    pub open spec fn status_value(self) -> u8 {
        self.ppustatus
    }

    /// A PPUSTATUS read clears the VBlank flag and resets the shared
    /// write toggle.
    pub open spec fn status_read(self) -> PpuV {
        PpuV { ppustatus: self.ppustatus & 0x7f, flipflop: false, ..self }
    }

    pub open spec fn oamaddr_written(self, value: u8) -> PpuV {
        PpuV { oamaddr: value, ..self }
    }

    pub open spec fn oamdata_value(self) -> u8 {
        self.oam[self.oamaddr as int]
    }

    /// An OAMDATA write stores at OAMADDR and then increments it.
    pub open spec fn oamdata_written(self, value: u8) -> PpuV {
        PpuV {
            oam: self.oam.update(self.oamaddr as int, value),
            oamaddr: ((self.oamaddr + 1) % 256) as u8,
            ..self
        }
    }

    /// First PPUSCROLL write sets the x scroll, the second the y scroll;
    /// the shared toggle flips either way.
    pub open spec fn scroll_written(self, value: u8) -> PpuV {
        if self.flipflop {
            PpuV { scroll_y: value, flipflop: false, ..self }
        } else {
            PpuV { scroll_x: value, flipflop: true, ..self }
        }
    }

    /// First PPUADDR write sets the high byte, the second the low byte;
    /// the address is kept modulo 0x4000 and the shared toggle flips.
    pub open spec fn addr_written(self, value: u8) -> PpuV {
        if self.flipflop {
            PpuV {
                ppuaddr: ((self.ppuaddr & 0xff00) | (value as u16)) % 0x4000,
                flipflop: false,
                ..self
            }
        } else {
            PpuV {
                ppuaddr: (((self.ppuaddr & 0x00ff) | ((value as u16) << 8))) % 0x4000,
                flipflop: true,
                ..self
            }
        }
    }

    /// PPUDATA accesses step the address by 1 or by 32 according to
    /// PPUCTRL bit 2, staying inside the 0x4000 address space.
    pub open spec fn vram_step(self) -> u16 {
        if self.ppuctrl & 0x04 == 0 { 1u16 } else { 32u16 }
    }

    pub open spec fn addr_incremented(self) -> PpuV {
        PpuV { ppuaddr: ((self.ppuaddr + self.vram_step()) % 0x4000) as u16, ..self }
    }

    /// The value a PPUDATA read returns: palette reads come straight from
    /// memory, anything lower returns the previous contents of the
    /// one-byte read buffer.
    pub open spec fn data_value(self) -> u8 {
        if self.ppuaddr >= 0x3f00 {
            self.memory.read(self.ppuaddr)
        } else {
            self.ppudata_buffer
        }
    }

    /// A PPUDATA read refills the buffer from the current address and
    /// steps the address.
    pub open spec fn data_read(self) -> PpuV {
        PpuV { ppudata_buffer: self.memory.read(self.ppuaddr), ..self }.addr_incremented()
    }

    pub open spec fn data_written(self, value: u8) -> PpuV {
        PpuV { memory: self.memory.write(self.ppuaddr, value), ..self }.addr_incremented()
    }

    // ------------------------------------------------------- rendering ---

    /// The two-bit pattern value of the background at column `x` of a
    /// visible scanline: the tile number comes from the nametable chosen
    /// by PPUCTRL bits 0..=1 offset by the scroll, the bit planes from
    /// the pattern table chosen by PPUCTRL bit 4. Value 0 is the
    /// transparent backdrop.
    pub open spec fn bg_color_number(self, scanline: u16, x: int) -> u8 {
        let nametable_address = (0x2000 + 0x400 * ((self.ppuctrl & 0b11) as int)) as u16;
        let pattern_address = (0x1000 * (((self.ppuctrl >> 4) & 1) as int)) as u16;
        let yy = (scanline + self.scroll_y) as u16;
        let tile_row = (yy / 8) as u16;
        let pixel_row = (yy % 8) as u16;
        let xx = (x + self.scroll_x) as u16;
        let tile_column = (xx / 8) as u16;
        let pixel_column = (xx % 8) as u16;
        let tile_number = self.memory.read(
            (nametable_address + tile_row * 32 + tile_column) as u16,
        );
        let low_byte = self.memory.read(
            (pattern_address + (tile_number as int) * 16 + pixel_row) as u16,
        );
        let high_byte = self.memory.read(
            (pattern_address + (tile_number as int) * 16 + pixel_row + 8) as u16,
        );
        (((high_byte >> ((7 - pixel_column) as u8)) & 1) << 1)
            | ((low_byte >> ((7 - pixel_column) as u8)) & 1)
    }

    /// The two-bit palette select for the background tile at column `x`,
    /// taken from the attribute byte of the tile's 4x4 block.
    pub open spec fn bg_palette_number(self, scanline: u16, x: int) -> u8 {
        let nametable_address = (0x2000 + 0x400 * ((self.ppuctrl & 0b11) as int)) as u16;
        let attribute_table_address = (nametable_address + 0x3c0) as u16;
        let yy = (scanline + self.scroll_y) as u16;
        let tile_row = (yy / 8) as u16;
        let attribute_row = (tile_row / 4) as u16;
        let xx = (x + self.scroll_x) as u16;
        let tile_column = (xx / 8) as u16;
        let attribute_column = (tile_column / 4) as u16;
        let attribute = self.memory.read(
            (attribute_table_address + attribute_row * 8 + attribute_column) as u16,
        );
        ((attribute >> ((4 * ((tile_row / 2) % 2)) as u8))
            >> ((2 * ((tile_column / 2) % 2)) as u8)) & 0b11
    }

    /// The palette index the background contributes at column `x`;
    /// pattern value 0 falls back to the backdrop entry.
    pub open spec fn bg_pixel(self, scanline: u16, x: int) -> u8 {
        let color_number = self.bg_color_number(scanline, x);
        if color_number == 0 {
            self.memory.read(0x3f00)
        } else {
            self.memory.read(
                (0x3f00 + 4 * (self.bg_palette_number(scanline, x) as int) + color_number) as u16,
            )
        }
    }

    /// The frame buffer with one scanline replaced by this PPU's
    /// background pixels (each stored modulo 64).
    pub open spec fn bg_rendered_row(self, scanline: u16, frame: Seq<u8>) -> Seq<u8> {
        Seq::new(
            frame.len(),
            |i: int| if (scanline as int) * 256 <= i < (scanline as int) * 256 + 256 {
                (self.bg_pixel(scanline, i - (scanline as int) * 256) % 64) as u8
            } else {
                frame[i]
            },
        )
    }

    /// The frame after the background pass: the row rendered when
    /// PPUMASK bit 3 enables the background, untouched otherwise.
    pub open spec fn bg_phase(self, scanline: u16, frame: Seq<u8>) -> Seq<u8> {
        if self.ppumask & 0x08 != 0 {
            self.bg_rendered_row(scanline, frame)
        } else {
            frame
        }
    }

    /// The two-bit pattern value of sprite `n` at pattern column `c` on
    /// this scanline, honoring the vertical flip (attribute bit 7).
    pub open spec fn sprite_color_number(self, n: int, scanline: u16, c: int) -> u8 {
        let sprite_y = self.oam[4 * n] as int;
        let tile_number = self.oam[4 * n + 1];
        let attributes = self.oam[4 * n + 2];
        let pattern_address = (0x1000 * (((self.ppuctrl >> 3) & 1) as int)) as u16;
        let sprite_row = scanline - sprite_y;
        let pattern_row = if attributes & 0x80 != 0 { 7 - sprite_row } else { sprite_row };
        let low_byte = self.memory.read(
            (pattern_address + (tile_number as int) * 16 + pattern_row) as u16,
        );
        let high_byte = self.memory.read(
            (pattern_address + (tile_number as int) * 16 + pattern_row + 8) as u16,
        );
        (((high_byte >> ((7 - c) as u8)) & 1) << 1) | ((low_byte >> ((7 - c) as u8)) & 1)
    }

    /// The screen column that pattern column `c` of sprite `n` lands on,
    /// honoring the horizontal flip (attribute bit 6).
    pub open spec fn sprite_column_x(self, n: int, c: int) -> int {
        let attributes = self.oam[4 * n + 2];
        (self.oam[4 * n + 3] as int) + (if attributes & 0x40 != 0 { 7 - c } else { c })
    }

    /// The pattern column of sprite `n` that lands on screen column `x`
    /// (the inverse of `sprite_column_x`).
    pub open spec fn sprite_column_of(self, n: int, x: int) -> int {
        let attributes = self.oam[4 * n + 2];
        let dx = x - (self.oam[4 * n + 3] as int);
        if attributes & 0x40 != 0 { 7 - dx } else { dx }
    }

    /// Whether sprite `n` puts a pixel on screen at pattern column `c` of
    /// this scanline: the sprite's rows cover the scanline, the column
    /// lies on screen and outside the hidden left margin (unless PPUCTRL
    /// bit 2 shows it), and the pattern value is not transparent.
    pub open spec fn sprite_pixel_shown(self, n: int, scanline: u16, c: int) -> bool {
        let x = self.sprite_column_x(n, c);
        &&& self.oam[4 * n] <= scanline < self.oam[4 * n] + 8
        &&& x < 256
        &&& (x >= 8 || self.ppuctrl & 0x04 != 0)
        &&& self.sprite_color_number(n, scanline, c) != 0
    }

    /// The palette index that pixel shows: one of the sprite palettes
    /// 4..=7 selected by attribute bits 0..=1.
    pub open spec fn sprite_pixel(self, n: int, scanline: u16, c: int) -> u8 {
        let attributes = self.oam[4 * n + 2];
        self.memory.read(
            (0x3f00 + 4 * ((4 + (attributes & 0b11)) as int)
                + self.sprite_color_number(n, scanline, c)) as u16,
        )
    }

    /// A sprite-0 hit at pattern column `c`: sprite 0 shows a pixel there
    /// while the background (which must be enabled) is opaque underneath.
    pub open spec fn sprite_zero_hit_at(self, scanline: u16, c: int) -> bool {
        &&& self.sprite_pixel_shown(0, scanline, c)
        &&& self.ppumask & 0x08 != 0
        &&& self.bg_color_number(scanline, self.sprite_column_x(0, c)) != 0
    }

    /// Whether rendering this scanline produces a sprite-0 hit anywhere.
    pub open spec fn sprite_zero_hits(self, scanline: u16) -> bool {
        exists|c: int| 0 <= c < 8 && self.sprite_zero_hit_at(scanline, c)
    }

    /// PPUSTATUS after rendering a visible scanline: bit 6 becomes set
    /// exactly when sprites are enabled and sprite 0 hits.
    pub open spec fn rendered_status(self, scanline: u16) -> u8 {
        if self.ppumask & 0x10 != 0 && self.sprite_zero_hits(scanline) {
            self.ppustatus | 0x40
        } else {
            self.ppustatus
        }
    }

    /// The frame with the pixels of sprite `n` at pattern columns below
    /// `k` applied to the scanline's row.
    pub open spec fn row_with_sprite_columns(
        self,
        n: int,
        scanline: u16,
        frame: Seq<u8>,
        k: int,
    ) -> Seq<u8> {
        Seq::new(
            frame.len(),
            |i: int| {
                let c = self.sprite_column_of(n, i - (scanline as int) * 256);
                if (scanline as int) * 256 <= i < (scanline as int) * 256 + 256
                    && 0 <= c < k && self.sprite_pixel_shown(n, scanline, c)
                {
                    (self.sprite_pixel(n, scanline, c) % 64) as u8
                } else {
                    frame[i]
                }
            },
        )
    }

    /// The frame with all of sprite `n`'s pixels applied.
    pub open spec fn row_with_sprite(self, n: int, scanline: u16, frame: Seq<u8>) -> Seq<u8> {
        self.row_with_sprite_columns(n, scanline, frame, 8)
    }

    /// The frame after drawing sprites 63 down to `n`, in that order, so
    /// that lower-numbered sprites win on overlap.
    pub open spec fn sprites_rendered_from(self, scanline: u16, frame: Seq<u8>, n: int) -> Seq<u8>
        decreases 64 - n,
    {
        if n >= 64 || n < 0 {
            frame
        } else {
            self.row_with_sprite(n, scanline, self.sprites_rendered_from(scanline, frame, n + 1))
        }
    }

    /// The frame after rendering a whole visible scanline: the background
    /// pass when PPUMASK bit 3 is set, then the sprite pass in reverse
    /// priority order when bit 4 is set.
    pub open spec fn rendered_frame(self, scanline: u16, frame: Seq<u8>) -> Seq<u8> {
        let base = self.bg_phase(scanline, frame);
        if self.ppumask & 0x10 != 0 {
            self.sprites_rendered_from(scanline, base, 0)
        } else {
            base
        }
    }
}

/// One PPU tick as a function of the PPU, the CPU (whose interrupt slot
/// the tick may set) and the screen. While the cycle counter is below
/// 340 it just advances; on the wrap the next scanline is processed:
/// visible scanlines render their row and settle the sprite-0 flag,
/// scanline 241 opens VBlank (requesting a non-maskable interrupt when
/// enabled and marking the frame ready), and the pre-render scanline 261
/// clears the VBlank and sprite-0 flags.
pub open spec fn tick_spec(p: PpuV, c: Cpu, s: ScreenV) -> (PpuV, Cpu, ScreenV) {
    if p.cycle_counter < 340 {
        (PpuV { cycle_counter: (p.cycle_counter + 1) as u16, ..p }, c, s)
    } else {
        let scanline = ((p.scanline_counter + 1) % 262) as u16;
        let advanced = PpuV { cycle_counter: 0u16, scanline_counter: scanline, ..p };
        if scanline <= 239 {
            (
                PpuV { ppustatus: advanced.rendered_status(scanline), ..advanced },
                c,
                ScreenV { frame: advanced.rendered_frame(scanline, s.frame), ..s },
            )
        } else if scanline == 241 {
            (
                PpuV { ppustatus: (p.ppustatus | 0x80) as u8, ..advanced },
                if p.ppuctrl & 0x80 != 0 {
                    c.interrupt_requested(Interrupt::Nmi)
                } else {
                    c
                },
                ScreenV { draw_requested: true, ..s },
            )
        } else if scanline == 261 {
            (PpuV { ppustatus: (p.ppustatus & 0x1f) as u8, ..advanced }, c, s)
        } else {
            (advanced, c, s)
        }
    }
}

/// `n` PPU ticks in sequence.
pub open spec fn ticks_spec(p: PpuV, c: Cpu, s: ScreenV, n: int) -> (PpuV, Cpu, ScreenV)
    decreases n,
{
    if n <= 0 {
        (p, c, s)
    } else {
        let prev = ticks_spec(p, c, s, n - 1);
        tick_spec(prev.0, prev.1, prev.2)
    }
}

impl Ppu {
    pub fn new() -> (ppu: Ppu)
        ensures
            ppu@.wf(),
            ppu@ == (PpuV {
                ppuctrl: 0u8,
                ppumask: 0u8,
                ppustatus: 0u8,
                oamaddr: 0u8,
                scroll_x: 0u8,
                scroll_y: 0u8,
                ppuaddr: 0u16,
                ppudata_buffer: 0u8,
                flipflop: false,
                cycle_counter: 0u16,
                scanline_counter: 0u16,
                oam: Seq::new(OAM_SIZE as nat, |i: int| 0u8),
                memory: PpuMemV {
                    table: Seq::new(crate::ppu_memory::TABLE_SIZE as nat, |i: int| 0u8),
                    palette: Seq::new(crate::ppu_memory::PALETTE_SIZE as nat, |i: int| 0u8),
                    mirroring: crate::ppu_memory::MIRROR_HORIZONTAL,
                },
            }),
    {
        let oam: Vec<u8> = vec![0u8; OAM_SIZE];
        proof {
            assert(oam@ =~= Seq::new(OAM_SIZE as nat, |i: int| 0u8));
        }
        let memory = PpuMemory::new();
        proof {
            assert(0u8 & 0x1fu8 == 0u8) by (bit_vector);
        }
        Ppu {
            ppuctrl: 0,
            ppumask: 0,
            ppustatus: 0,
            oamaddr: 0,
            scroll_x: 0,
            scroll_y: 0,
            ppuaddr: 0,
            ppudata_buffer: 0,
            flipflop: false,
            cycle_counter: 0,
            scanline_counter: 0,
            oam,
            memory,
        }
    }

    /// One PPU tick: implements `tick_spec` exactly. Nothing happens
    /// until the cycle counter wraps at the end of a scanline; then the
    /// next scanline is processed: a visible one (0..=239) is rendered
    /// into the frame buffer, scanline 241 opens VBlank (setting the
    /// VBlank flag, requesting a non-maskable interrupt when PPUCTRL bit
    /// 7 is set, and signalling the screen that the frame is ready), and
    /// the pre-render scanline 261 clears the VBlank and sprite-0 flags.
    pub fn do_cycle(&mut self, cpu: &mut Cpu, screen: &mut Screen)
        requires
            old(self)@.wf(),
            old(screen).wf(),
        ensures
            final(self)@.wf(),
            final(screen).wf(),
            final(self)@ == tick_spec(old(self)@, *old(cpu), old(screen)@).0,
            *final(cpu) == tick_spec(old(self)@, *old(cpu), old(screen)@).1,
            final(screen)@ == tick_spec(old(self)@, *old(cpu), old(screen)@).2,
    {
        if self.cycle_counter < 340 {
            self.cycle_counter = self.cycle_counter + 1;
            return;
        }
        self.cycle_counter = 0;
        self.scanline_counter = (self.scanline_counter + 1) % 262;
        let scanline = self.scanline_counter;
        if scanline <= 239 {
            self.render_scanline(scanline, screen);
        } else if scanline == 241 {
            self.ppustatus = self.ppustatus | 0x80;
            proof {
                let s = old(self)@.ppustatus;
                assert(s & 0x1f == 0 ==> (s | 0x80) & 0x1f == 0) by (bit_vector);
            }
            if (self.ppuctrl & 0x80) != 0 {
                cpu.request_interrupt(Interrupt::Nmi);
            }
            screen.request_draw();
        } else if scanline == 261 {
            self.ppustatus = self.ppustatus & 0x1f;
            proof {
                let s = old(self)@.ppustatus;
                assert((s & 0x1f) & 0x1f == s & 0x1f) by (bit_vector);
            }
        }
        proof {
            assert(self@ =~= tick_spec(old(self)@, *old(cpu), old(screen)@).0);
            assert(screen@ =~= tick_spec(old(self)@, *old(cpu), old(screen)@).2);
        }
    }

    /// Combine the two pattern-plane bits for a pixel column into its
    /// two-bit color number.
    fn pixel_color_number(low_byte: u8, high_byte: u8, column: u16) -> (color: u8)
        requires
            column <= 7,
        ensures
            color == ((((high_byte >> ((7 - column) as u8)) & 1) << 1)
                | ((low_byte >> ((7 - column) as u8)) & 1)),
            color <= 3,
    {
        let shift = (7 - column) as u8;
        let low_bit = (low_byte >> shift) & 1;
        let high_bit = (high_byte >> shift) & 1;
        proof {
            assert(((((high_byte >> shift) & 1) << 1) | ((low_byte >> shift) & 1)) <= 3)
                by (bit_vector);
        }
        (high_bit << 1) | low_bit
    }

    /// Render one visible scanline: the background pass fills the row
    /// (recording which pixels are opaque), then sprites are drawn in
    /// reverse priority order so lower numbers win, flagging a sprite-0
    /// hit exactly when an opaque sprite-0 pixel lands on an opaque
    /// background pixel.
    #[verifier::rlimit(100)]
    fn render_scanline(&mut self, scanline: u16, screen: &mut Screen)
        requires
            old(self)@.wf(),
            old(screen).wf(),
            scanline <= 239,
        ensures
            final(self)@.wf(),
            final(screen).wf(),
            final(self)@ == (PpuV {
                ppustatus: old(self)@.rendered_status(scanline),
                ..old(self)@
            }),
            final(screen)@ == (ScreenV {
                frame: old(self)@.rendered_frame(scanline, old(screen)@.frame),
                ..old(screen)@
            }),
            final(screen)@.frame.len() == old(screen)@.frame.len(),
            forall|i: int| 0 <= i < old(screen)@.frame.len()
                && !((scanline as int) * 256 <= i < (scanline as int) * 256 + 256)
                ==> final(screen)@.frame[i] == old(screen)@.frame[i],
    {
        let mut bg_opaque: Vec<bool> = vec![false; FRAME_WIDTH];
        proof {
            assert(bg_opaque@ =~= Seq::new(FRAME_WIDTH as nat, |j: int| false));
        }
        if (self.ppumask & 0x08) != 0 {
            proof {
                let c = self@.ppuctrl;
                assert(c & 0b11 <= 3 && (c >> 4) & 1 <= 1) by (bit_vector);
            }
            let nametable_address: u16 = 0x2000 + 0x400 * ((self.ppuctrl & 0b11) as u16);
            let attribute_table_address: u16 = nametable_address + 0x3c0;
            let pattern_address: u16 = 0x1000 * (((self.ppuctrl >> 4) & 1) as u16);
            let yy: u16 = scanline + self.scroll_y as u16;
            let tile_row: u16 = yy / 8;
            let pixel_row: u16 = yy % 8;
            let attribute_row: u16 = tile_row / 4;
            let mut x: usize = 0;
            while x < FRAME_WIDTH
                invariant
                    x <= FRAME_WIDTH,
                    self@.wf(),
                    self@ == old(self)@,
                    screen.wf(),
                    screen@.draw_requested == old(screen)@.draw_requested,
                    screen@.frame.len() == old(screen)@.frame.len(),
                    forall|i: int| 0 <= i < old(screen)@.frame.len()
                        && !((scanline as int) * 256 <= i < (scanline as int) * 256 + x)
                        ==> screen@.frame[i] == old(screen)@.frame[i],
                    forall|j: int| 0 <= j < x ==> screen@.frame[(scanline as int) * 256 + j]
                        == (#[trigger] old(self)@.bg_pixel(scanline, j) % 64) as u8,
                    bg_opaque@.len() == FRAME_WIDTH,
                    forall|j: int| 0 <= j < x ==> #[trigger] bg_opaque@[j]
                        == (old(self)@.bg_color_number(scanline, j) != 0),
                    forall|j: int| x <= j < FRAME_WIDTH ==> !(#[trigger] bg_opaque@[j]),
                    scanline <= 239,
                    nametable_address == (0x2000 + 0x400 * ((old(self)@.ppuctrl & 0b11) as int)) as u16,
                    nametable_address <= 0x2c00,
                    attribute_table_address == nametable_address + 0x3c0,
                    pattern_address == (0x1000 * (((old(self)@.ppuctrl >> 4) & 1) as int)) as u16,
                    pattern_address <= 0x1000,
                    yy == (scanline + old(self)@.scroll_y) as u16,
                    tile_row == yy / 8,
                    tile_row <= 61,
                    pixel_row == yy % 8,
                    pixel_row <= 7,
                    attribute_row == tile_row / 4,
                    attribute_row <= 15,
                decreases FRAME_WIDTH - x,
            {
                let xx: u16 = x as u16 + self.scroll_x as u16;
                let tile_column: u16 = xx / 8;
                let pixel_column: u16 = xx % 8;
                let attribute_column: u16 = tile_column / 4;
                let attribute = self.memory.read(
                    attribute_table_address + attribute_row * 8 + attribute_column,
                );
                let palette_number =
                    ((attribute >> ((4 * ((tile_row / 2) % 2)) as u8))
                        >> ((2 * ((tile_column / 2) % 2)) as u8)) & 0b11;
                proof {
                    let a = attribute;
                    let s1 = (4 * ((tile_row / 2) % 2)) as u8;
                    let s2 = (2 * ((tile_column / 2) % 2)) as u8;
                    assert(((a >> s1) >> s2) & 0b11 <= 3) by (bit_vector);
                }
                let tile_number = self.memory.read(
                    nametable_address + tile_row * 32 + tile_column,
                );
                let low_byte = self.memory.read(
                    pattern_address + (tile_number as u16) * 16 + pixel_row,
                );
                let high_byte = self.memory.read(
                    pattern_address + (tile_number as u16) * 16 + pixel_row + 8,
                );
                let color_number = Self::pixel_color_number(low_byte, high_byte, pixel_column);
                proof {
                    assert(color_number == old(self)@.bg_color_number(scanline, x as int));
                }
                let color_address: u16 = if color_number == 0 {
                    0x3f00
                } else {
                    0x3f00 + 4 * (palette_number as u16) + color_number as u16
                };
                let color = self.memory.read(color_address);
                proof {
                    assert(color == old(self)@.bg_pixel(scanline, x as int));
                }
                bg_opaque[x] = color_number != 0;
                screen.set_pixel(x, scanline as usize, color);
                x += 1;
            }
            proof {
                assert(screen@.frame =~= old(self)@.bg_rendered_row(scanline, old(screen)@.frame));
            }
        }
        if (self.ppumask & 0x10) != 0 {
            // 8x16 sprites (PPUCTRL bit 5) are not implemented; tall
            // sprites render as their first 8x8 tile.
            proof {
                let c = self@.ppuctrl;
                assert((c >> 3) & 1 <= 1) by (bit_vector);
                assert(screen@.frame =~= old(self)@.bg_phase(scanline, old(screen)@.frame));
            }
            let pattern_address: u16 = 0x1000 * (((self.ppuctrl >> 3) & 1) as u16);
            let mut number: usize = 64;
            while number > 0
                invariant
                    number <= 64,
                    scanline <= 239,
                    self@.wf(),
                    number >= 1 ==> self@ == old(self)@,
                    number == 0 ==> self@ == (PpuV {
                        ppustatus: if old(self)@.sprite_zero_hits(scanline) {
                            (old(self)@.ppustatus | 0x40) as u8
                        } else {
                            old(self)@.ppustatus
                        },
                        ..old(self)@
                    }),
                    screen.wf(),
                    screen@.draw_requested == old(screen)@.draw_requested,
                    screen@.frame.len() == old(screen)@.frame.len(),
                    forall|i: int| 0 <= i < old(screen)@.frame.len()
                        && !((scanline as int) * 256 <= i < (scanline as int) * 256 + 256)
                        ==> screen@.frame[i] == old(screen)@.frame[i],
                    screen@.frame == old(self)@.sprites_rendered_from(
                        scanline,
                        old(self)@.bg_phase(scanline, old(screen)@.frame),
                        number as int,
                    ),
                    bg_opaque@.len() == FRAME_WIDTH,
                    forall|j: int| 0 <= j < FRAME_WIDTH ==> #[trigger] bg_opaque@[j]
                        == (old(self)@.ppumask & 0x08 != 0
                            && old(self)@.bg_color_number(scanline, j) != 0),
                    pattern_address == (0x1000 * (((old(self)@.ppuctrl >> 3) & 1) as int)) as u16,
                    pattern_address <= 0x1000,
                decreases number,
            {
                number -= 1;
                let sprite_y = self.oam[number * 4] as u16;
                let tile_number = self.oam[number * 4 + 1];
                let attributes = self.oam[number * 4 + 2];
                let sprite_x = self.oam[number * 4 + 3] as u16;
                proof {
                    let a = self@.oam[number * 4 + 2];
                    assert(a & 0b11 <= 3) by (bit_vector);
                }
                let palette_number = 4 + (attributes & 0b11);
                let horizontal_flip = (attributes & 0x40) != 0;
                let vertical_flip = (attributes & 0x80) != 0;
                if scanline >= sprite_y && scanline < sprite_y + 8 {
                    let sprite_row = scanline - sprite_y;
                    let pattern_row = if vertical_flip { 7 - sprite_row } else { sprite_row };
                    let low_byte = self.memory.read(
                        pattern_address + (tile_number as u16) * 16 + pattern_row,
                    );
                    let high_byte = self.memory.read(
                        pattern_address + (tile_number as u16) * 16 + pattern_row + 8,
                    );
                    proof {
                        assert(old(self)@.row_with_sprite_columns(
                            number as int,
                            scanline,
                            old(self)@.sprites_rendered_from(
                                scanline,
                                old(self)@.bg_phase(scanline, old(screen)@.frame),
                                number as int + 1,
                            ),
                            0,
                        ) =~= old(self)@.sprites_rendered_from(
                            scanline,
                            old(self)@.bg_phase(scanline, old(screen)@.frame),
                            number as int + 1,
                        ));
                    }
                    let mut pixel_column: u16 = 0;
                    while pixel_column < 8
                        invariant
                            pixel_column <= 8,
                            scanline <= 239,
                            number < 64,
                            self@.wf(),
                            number >= 1 ==> self@ == old(self)@,
                            number == 0 ==> self@ == (PpuV {
                                ppustatus: if (exists|c: int| 0 <= c < pixel_column
                                    && old(self)@.sprite_zero_hit_at(scanline, c)) {
                                    (old(self)@.ppustatus | 0x40) as u8
                                } else {
                                    old(self)@.ppustatus
                                },
                                ..old(self)@
                            }),
                            screen.wf(),
                            screen@.draw_requested == old(screen)@.draw_requested,
                            screen@.frame.len() == old(screen)@.frame.len(),
                            forall|i: int| 0 <= i < old(screen)@.frame.len()
                                && !((scanline as int) * 256 <= i < (scanline as int) * 256 + 256)
                                ==> screen@.frame[i] == old(screen)@.frame[i],
                            screen@.frame == old(self)@.row_with_sprite_columns(
                                number as int,
                                scanline,
                                old(self)@.sprites_rendered_from(
                                    scanline,
                                    old(self)@.bg_phase(scanline, old(screen)@.frame),
                                    number as int + 1,
                                ),
                                pixel_column as int,
                            ),
                            bg_opaque@.len() == FRAME_WIDTH,
                            forall|j: int| 0 <= j < FRAME_WIDTH ==> #[trigger] bg_opaque@[j]
                                == (old(self)@.ppumask & 0x08 != 0
                                    && old(self)@.bg_color_number(scanline, j) != 0),
                            sprite_y == old(self)@.oam[4 * (number as int)],
                            tile_number == old(self)@.oam[4 * (number as int) + 1],
                            attributes == old(self)@.oam[4 * (number as int) + 2],
                            sprite_x == old(self)@.oam[4 * (number as int) + 3],
                            sprite_x <= 255,
                            palette_number == 4 + (attributes & 0b11),
                            palette_number <= 7,
                            horizontal_flip == (attributes & 0x40 != 0),
                            vertical_flip == (attributes & 0x80 != 0),
                            sprite_y <= scanline < sprite_y + 8,
                            sprite_row == scanline - sprite_y,
                            vertical_flip ==> pattern_row == 7 - sprite_row,
                            !vertical_flip ==> pattern_row == sprite_row,
                            pattern_row <= 7,
                            pattern_address
                                == (0x1000 * (((old(self)@.ppuctrl >> 3) & 1) as int)) as u16,
                            pattern_address <= 0x1000,
                            low_byte == old(self)@.memory.read(
                                (pattern_address + (tile_number as int) * 16 + pattern_row) as u16,
                            ),
                            high_byte == old(self)@.memory.read(
                                (pattern_address + (tile_number as int) * 16 + pattern_row
                                    + 8) as u16,
                            ),
                        decreases 8 - pixel_column,
                    {
                        let offset = if horizontal_flip { 7 - pixel_column } else { pixel_column };
                        let x: u16 = sprite_x + offset;
                        let color_number =
                            Self::pixel_color_number(low_byte, high_byte, pixel_column);
                        proof {
                            assert(color_number == old(self)@.sprite_color_number(
                                number as int, scanline, pixel_column as int));
                            assert(x as int == old(self)@.sprite_column_x(
                                number as int, pixel_column as int));
                        }
                        // Pixels past the right edge are clipped; pixels in
                        // the leftmost eight columns are hidden unless
                        // PPUCTRL bit 2 shows them.
                        if x < FRAME_WIDTH as u16 && (x >= 8 || (self.ppuctrl & 0x04) != 0)
                            && color_number != 0 {
                            proof {
                                assert(old(self)@.sprite_pixel_shown(
                                    number as int, scanline, pixel_column as int));
                            }
                            if number == 0 && bg_opaque[x as usize] {
                                proof {
                                    assert(old(self)@.sprite_zero_hit_at(
                                        scanline, pixel_column as int));
                                    let s = old(self)@.ppustatus;
                                    assert(s & 0x1f == 0 ==> (s | 0x40) & 0x1f == 0)
                                        by (bit_vector);
                                    assert((s | 0x40) | 0x40 == s | 0x40) by (bit_vector);
                                }
                                self.ppustatus = self.ppustatus | 0x40;
                            } else {
                                proof {
                                    if number == 0 {
                                        assert(!old(self)@.sprite_zero_hit_at(
                                            scanline, pixel_column as int));
                                    }
                                }
                            }
                            let color = self.memory.read(
                                0x3f00 + 4 * (palette_number as u16) + color_number as u16,
                            );
                            proof {
                                assert(color == old(self)@.sprite_pixel(
                                    number as int, scanline, pixel_column as int));
                            }
                            screen.set_pixel(x as usize, scanline as usize, color);
                            proof {
                                assert(screen@.frame =~= old(self)@.row_with_sprite_columns(
                                    number as int,
                                    scanline,
                                    old(self)@.sprites_rendered_from(
                                        scanline,
                                        old(self)@.bg_phase(scanline, old(screen)@.frame),
                                        number as int + 1,
                                    ),
                                    pixel_column as int + 1,
                                ));
                            }
                        } else {
                            proof {
                                assert(!old(self)@.sprite_pixel_shown(
                                    number as int, scanline, pixel_column as int));
                                if number == 0 {
                                    assert(!old(self)@.sprite_zero_hit_at(
                                        scanline, pixel_column as int));
                                }
                                assert(screen@.frame =~= old(self)@.row_with_sprite_columns(
                                    number as int,
                                    scanline,
                                    old(self)@.sprites_rendered_from(
                                        scanline,
                                        old(self)@.bg_phase(scanline, old(screen)@.frame),
                                        number as int + 1,
                                    ),
                                    pixel_column as int + 1,
                                ));
                            }
                        }
                        proof {
                            if number == 0 {
                                assert((exists|c: int| 0 <= c < pixel_column as int + 1
                                    && old(self)@.sprite_zero_hit_at(scanline, c))
                                    == ((exists|c: int| 0 <= c < pixel_column as int
                                        && old(self)@.sprite_zero_hit_at(scanline, c))
                                        || old(self)@.sprite_zero_hit_at(
                                            scanline, pixel_column as int)));
                            }
                        }
                        pixel_column += 1;
                    }
                    proof {
                        assert(screen@.frame =~= old(self)@.sprites_rendered_from(
                            scanline,
                            old(self)@.bg_phase(scanline, old(screen)@.frame),
                            number as int,
                        ));
                    }
                } else {
                    proof {
                        assert(forall|c: int| 0 <= c < 8
                            ==> !old(self)@.sprite_pixel_shown(number as int, scanline, c));
                        assert(screen@.frame =~= old(self)@.row_with_sprite(
                            number as int,
                            scanline,
                            old(self)@.sprites_rendered_from(
                                scanline,
                                old(self)@.bg_phase(scanline, old(screen)@.frame),
                                number as int + 1,
                            ),
                        ));
                        assert(screen@.frame =~= old(self)@.sprites_rendered_from(
                            scanline,
                            old(self)@.bg_phase(scanline, old(screen)@.frame),
                            number as int,
                        ));
                        if number == 0 {
                            assert(forall|c: int| 0 <= c < 8
                                ==> !old(self)@.sprite_zero_hit_at(scanline, c));
                        }
                    }
                }
            }
        }
        proof {
            assert(screen@.frame =~= old(self)@.rendered_frame(scanline, old(screen)@.frame));
            assert(screen@ =~= (ScreenV {
                frame: old(self)@.rendered_frame(scanline, old(screen)@.frame),
                ..old(screen)@
            }));
            assert(self@ =~= (PpuV {
                ppustatus: old(self)@.rendered_status(scanline),
                ..old(self)@
            }));
        }
    }

    pub fn load_chr_rom(&mut self, chr_rom: &Vec<u8>)
        requires
            old(self)@.wf(),
        ensures
            final(self)@.wf(),
            final(self)@ == (PpuV {
                memory: PpuMemV {
                    table: Seq::new(
                        crate::ppu_memory::TABLE_SIZE as nat,
                        |i: int| if i < chr_rom@.len() {
                            chr_rom@[i]
                        } else {
                            old(self)@.memory.table[i]
                        },
                    ),
                    ..old(self)@.memory
                },
                ..old(self)@
            }),
    {
        self.memory.load_chr_rom(chr_rom);
    }
}

} // verus!
