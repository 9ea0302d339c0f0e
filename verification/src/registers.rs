//! The eight memory-mapped PPU registers and the OAMDMA port, as the CPU
//! bus sees them. Each register is a unit struct whose operations act on
//! the `Ppu` (OAMDMA on the whole emulator); their contracts restate the
//! register protocol over the PPU's view.

use vstd::prelude::*;

use crate::emulator::EmuV;
use crate::emulator::Emulator;
use crate::ppu::Ppu;
use crate::ppu::PpuV;

verus! {

pub struct Ppuctrl;
pub struct Ppumask;
pub struct Ppustatus;
pub struct Oamaddr;
pub struct Oamdata;
pub struct Ppuscroll;
pub struct Ppuaddr;
pub struct Ppudata;
pub struct Oamdma;

impl Ppuctrl {
    pub fn write(ppu: &mut Ppu, value: u8)
        requires
            old(ppu)@.wf(),
        ensures
            final(ppu)@ == old(ppu)@.ctrl_written(value),
            final(ppu)@.wf(),
    {
        ppu.ppuctrl = value;
    }

    pub fn read_debug(ppu: &Ppu) -> (value: u8)
        ensures
            value == ppu@.ppuctrl,
    {
        ppu.ppuctrl
    }
}

impl Ppumask {
    pub fn write(ppu: &mut Ppu, value: u8)
        requires
            old(ppu)@.wf(),
        ensures
            final(ppu)@ == old(ppu)@.mask_written(value),
            final(ppu)@.wf(),
    {
        ppu.ppumask = value;
    }

    pub fn read_debug(ppu: &Ppu) -> (value: u8)
        ensures
            value == ppu@.ppumask,
    {
        ppu.ppumask
    }
}

impl Ppustatus {
    /// Reading PPUSTATUS returns it, clears the VBlank flag and resets the
    /// shared write toggle.
    pub fn read(ppu: &mut Ppu) -> (value: u8)
        requires
            old(ppu)@.wf(),
        ensures
            value == old(ppu)@.status_value(),
            final(ppu)@ == old(ppu)@.status_read(),
            final(ppu)@.wf(),
    {
        let value = ppu.ppustatus;
        ppu.ppustatus = ppu.ppustatus & 0x7f;
        ppu.flipflop = false;
        proof {
            let s = old(ppu)@.ppustatus;
            assert(s & 0x1f == 0 ==> (s & 0x7f) & 0x1f == 0) by (bit_vector);
        }
        value
    }

    pub fn read_debug(ppu: &Ppu) -> (value: u8)
        ensures
            value == ppu@.ppustatus,
    {
        ppu.ppustatus
    }
}

impl Oamaddr {
    pub fn write(ppu: &mut Ppu, value: u8)
        requires
            old(ppu)@.wf(),
        ensures
            final(ppu)@ == old(ppu)@.oamaddr_written(value),
            final(ppu)@.wf(),
    {
        ppu.oamaddr = value;
    }

    pub fn read_debug(ppu: &Ppu) -> (value: u8)
        ensures
            value == ppu@.oamaddr,
    {
        ppu.oamaddr
    }
}

impl Oamdata {
    pub fn read(ppu: &mut Ppu) -> (value: u8)
        requires
            old(ppu)@.wf(),
        ensures
            value == old(ppu)@.oamdata_value(),
            final(ppu)@ == old(ppu)@,
    {
        ppu.oam[ppu.oamaddr as usize]
    }

    /// An OAMDATA write stores at OAMADDR and post-increments it.
    pub fn write(ppu: &mut Ppu, value: u8)
        requires
            old(ppu)@.wf(),
        ensures
            final(ppu)@ == old(ppu)@.oamdata_written(value),
            final(ppu)@.wf(),
    {
        let index = ppu.oamaddr as usize;
        ppu.oam[index] = value;
        ppu.oamaddr = ((ppu.oamaddr as u16 + 1) % 256) as u8;
    }

    pub fn read_debug(ppu: &Ppu) -> (value: u8)
        requires
            ppu@.wf(),
        ensures
            value == ppu@.oamdata_value(),
    {
        ppu.oam[ppu.oamaddr as usize]
    }
}

impl Ppuscroll {
    /// First write sets the x scroll, the second the y scroll; the toggle
    /// shared with PPUADDR flips on every write.
    pub fn write(ppu: &mut Ppu, value: u8)
        requires
            old(ppu)@.wf(),
        ensures
            final(ppu)@ == old(ppu)@.scroll_written(value),
            final(ppu)@.wf(),
    {
        if ppu.flipflop {
            ppu.scroll_y = value;
            ppu.flipflop = false;
        } else {
            ppu.scroll_x = value;
            ppu.flipflop = true;
        }
    }

    pub fn read_debug(_ppu: &Ppu) -> (value: u8)
        ensures
            value == 0,
    {
        0
    }
}

impl Ppuaddr {
    /// First write sets the high byte, the second the low byte; the
    /// address stays below 0x4000 and the shared toggle flips.
    pub fn write(ppu: &mut Ppu, value: u8)
        requires
            old(ppu)@.wf(),
        ensures
            final(ppu)@ == old(ppu)@.addr_written(value),
            final(ppu)@.wf(),
    {
        if ppu.flipflop {
            ppu.ppuaddr = ((ppu.ppuaddr & 0xff00) | value as u16) % 0x4000;
            ppu.flipflop = false;
        } else {
            ppu.ppuaddr = ((ppu.ppuaddr & 0x00ff) | ((value as u16) << 8)) % 0x4000;
            ppu.flipflop = true;
        }
    }

    /// The byte of the address that the next write would replace.
    pub fn read_debug(ppu: &Ppu) -> (value: u8)
        requires
            ppu@.wf(),
        ensures
            value == (if ppu@.flipflop { (ppu@.ppuaddr % 256) as u8 } else { (ppu@.ppuaddr / 256) as u8 }),
    {
        if ppu.flipflop {
            (ppu.ppuaddr % 256) as u8
        } else {
            (ppu.ppuaddr / 256) as u8
        }
    }
}

/// Step PPUADDR by 1 or 32 according to PPUCTRL bit 2, staying inside the
/// 0x4000 address space.
fn increment_ppuaddr(ppu: &mut Ppu)
    requires
        old(ppu)@.wf(),
    ensures
        final(ppu)@ == old(ppu)@.addr_incremented(),
        final(ppu)@.wf(),
{
    let step: u16 = if (ppu.ppuctrl & 0x04) == 0 { 1 } else { 32 };
    ppu.ppuaddr = (ppu.ppuaddr + step) % 0x4000;
}

impl Ppudata {
    /// A buffered read: below the palette range the previous buffer
    /// contents come back and the buffer is refilled from the current
    /// address; palette reads bypass the buffer. The address then steps.
    pub fn read(ppu: &mut Ppu) -> (value: u8)
        requires
            old(ppu)@.wf(),
        ensures
            value == old(ppu)@.data_value(),
            final(ppu)@ == old(ppu)@.data_read(),
            final(ppu)@.wf(),
    {
        let addr = ppu.ppuaddr;
        let old_buffer = ppu.ppudata_buffer;
        ppu.ppudata_buffer = ppu.memory.read(addr);
        let fresh = ppu.ppudata_buffer;
        increment_ppuaddr(ppu);
        if addr >= 0x3f00 {
            fresh
        } else {
            old_buffer
        }
    }

    pub fn write(ppu: &mut Ppu, value: u8)
        requires
            old(ppu)@.wf(),
        ensures
            final(ppu)@ == old(ppu)@.data_written(value),
            final(ppu)@.wf(),
    {
        ppu.memory.write(ppu.ppuaddr, value);
        increment_ppuaddr(ppu);
    }

    pub fn read_debug(ppu: &Ppu) -> (value: u8)
        requires
            ppu@.wf(),
        ensures
            value == ppu@.data_value(),
    {
        if ppu.ppuaddr >= 0x3f00 {
            ppu.memory.read(ppu.ppuaddr)
        } else {
            ppu.ppudata_buffer
        }
    }
}

/// Where OAM entry `j` comes from after a DMA that copies 256 bytes from
/// CPU page `value << 8`, starting at OAMADDR and wrapping: the
/// CPU-visible byte of each source address, whatever region of the map
/// the page falls in (RAM and its mirrors, program ROM, the register
/// stubs).
pub open spec fn oam_after_dma(e: EmuV, value: u8) -> Seq<u8> {
    Seq::new(256, |j: int| {
        let base = e.ppu.oamaddr as int;
        let d = if j >= base { j - base } else { j + 256 - base };
        crate::bus::bus_peek(e, (value * 256 + d) as u16)
    })
}

impl Oamdma {
    /// Copy 256 bytes of CPU page `value << 8` into OAM, starting at
    /// OAMADDR, which wraps all the way around and so keeps its value.
    /// The whole page is latched before the first OAM byte is stored, so
    /// the copy is atomic within the instruction that triggers it and
    /// the reads consume no side effects (the PPUDATA buffer, the VBlank
    /// flag and the joypad shift register stay put). The cycle stall of
    /// the real DMA unit is not modelled.
    pub fn write(emulator: &mut Emulator, value: u8)
        requires
            old(emulator)@.wf(),
        ensures
            final(emulator)@ == (EmuV {
                ppu: PpuV { oam: oam_after_dma(old(emulator)@, value), ..old(emulator)@.ppu },
                ..old(emulator)@
            }),
            final(emulator)@.wf(),
    {
        let page: usize = (value as usize) * 256;
        let mut bytes: Vec<u8> = Vec::new();
        let mut i: usize = 0;
        while i < 256
            invariant
                0 <= i <= 256,
                page == value * 256,
                emulator@.wf(),
                emulator@ == old(emulator)@,
                bytes@.len() == i,
                forall|d: int| 0 <= d < i
                    ==> bytes@[d] == crate::bus::bus_peek(emulator@, (value * 256 + d) as u16),
            decreases 256 - i,
        {
            let byte = crate::bus::read8_debug(emulator, (page + i) as u16);
            bytes.push(byte);
            i += 1;
        }
        let base: usize = emulator.ppu.oamaddr as usize;
        let mut i: usize = 0;
        while i < 256
            invariant
                0 <= i <= 256,
                base == old(emulator)@.ppu.oamaddr,
                base < 256,
                bytes@.len() == 256,
                forall|d: int| 0 <= d < 256
                    ==> bytes@[d] == crate::bus::bus_peek(old(emulator)@, (value * 256 + d) as u16),
                emulator@.wf(),
                emulator@ == (EmuV {
                    ppu: PpuV { oam: emulator@.ppu.oam, ..old(emulator)@.ppu },
                    ..old(emulator)@
                }),
                emulator@.ppu.oam.len() == 256,
                forall|j: int| 0 <= j < 256 ==> emulator@.ppu.oam[j] == {
                    let d = if j >= base { j - base } else { j + 256 - base };
                    if d < i {
                        crate::bus::bus_peek(old(emulator)@, (value * 256 + d) as u16)
                    } else {
                        old(emulator)@.ppu.oam[j]
                    }
                },
            decreases 256 - i,
        {
            let dst = if base + i < 256 { base + i } else { base + i - 256 };
            emulator.ppu.oam[dst] = bytes[i];
            i += 1;
        }
        proof {
            assert(emulator@.ppu.oam =~= oam_after_dma(old(emulator)@, value));
            assert(emulator@ =~= (EmuV {
                ppu: PpuV { oam: oam_after_dma(old(emulator)@, value), ..old(emulator)@.ppu },
                ..old(emulator)@
            }));
        }
    }

    pub fn read_debug() -> (value: u8)
        ensures
            value == 0,
    {
        0
    }
}

} // verus!
