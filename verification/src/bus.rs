//! The CPU-side memory bus: a pure dispatch layer over RAM, the PPU
//! registers, the joypad, the OAMDMA port and the cartridge mapper.
//!
//! RAM occupies 0x0000..=0x1FFF, mirrored every 0x800 bytes. The eight PPU
//! registers at 0x2000..=0x2007 are mirrored every eight bytes up to
//! 0x3FFF. The APU range and the expansion range are stubs: reads yield 0,
//! writes are ignored. 0x6000 and up belongs to the mapper. Reads of
//! write-only registers yield 0; writes to read-only registers are
//! ignored.

use vstd::prelude::*;

use crate::emulator::EmuV;
use crate::emulator::Emulator;
use crate::emulator::RAM_SIZE;
use crate::cpu::Cpu;
use crate::cpu::Interrupt;
use crate::ppu::PpuV;
use crate::registers::oam_after_dma;
use crate::registers::Oamaddr;
use crate::registers::Oamdata;
use crate::registers::Oamdma;
use crate::registers::Ppuaddr;
use crate::registers::Ppuctrl;
use crate::registers::Ppudata;
use crate::registers::Ppumask;
use crate::registers::Ppuscroll;
use crate::registers::Ppustatus;

verus! {

/// The PPU register that an address in 0x2000..=0x3FFF reaches: the
/// mirrors collapse onto 0x2000 + (address mod 8).
pub open spec fn mirrored_register(address: u16) -> u16 {
    (0x2000 + (address - 0x2000) % 8) as u16
}

/// The state after, and the value returned by, a CPU read at `address`.
/// Reading PPUSTATUS or PPUDATA changes the PPU, reading the joypad
/// shifts its register; every other read leaves the machine as it is.
pub open spec fn bus_read(e: EmuV, address: u16) -> (EmuV, u8) {
    if address < 0x2000 {
        (e, e.ram[(address % 0x800) as int])
    } else if address < 0x4000 {
        let register = mirrored_register(address);
        if register == 0x2002 {
            (EmuV { ppu: e.ppu.status_read(), ..e }, e.ppu.status_value())
        } else if register == 0x2004 {
            (e, e.ppu.oamdata_value())
        } else if register == 0x2007 {
            (EmuV { ppu: e.ppu.data_read(), ..e }, e.ppu.data_value())
        } else {
            (e, 0u8)
        }
    } else if address == 0x4016 {
        (EmuV { joypad: e.joypad.after_read(), ..e }, e.joypad.read_value())
    } else if 0x6000 <= address {
        match e.mapper {
            Some(m) => (e, m.read(address)),
            None => (e, 0u8),
        }
    } else {
        (e, 0u8)
    }
}

/// The CPU after a write to PPUCTRL: turning the NMI-enable bit on while
/// the VBlank flag is already set schedules a non-maskable interrupt.
pub open spec fn cpu_after_ctrl_write(e: EmuV, value: u8) -> Cpu {
    if value & 0x80 != 0 && e.ppu.ppuctrl & 0x80 == 0 && e.ppu.ppustatus & 0x80 != 0 {
        Cpu {
            pending_interrupt: Some(Interrupt::Nmi),
            ..e.cpu
        }
    } else {
        e.cpu
    }
}

/// The state after a CPU write of `value` at `address`.
pub open spec fn bus_write(e: EmuV, address: u16, value: u8) -> EmuV {
    if address < 0x2000 {
        EmuV { ram: e.ram.update((address % 0x800) as int, value), ..e }
    } else if address < 0x4000 {
        let register = mirrored_register(address);
        if register == 0x2000 {
            EmuV { ppu: e.ppu.ctrl_written(value), cpu: cpu_after_ctrl_write(e, value), ..e }
        } else if register == 0x2001 {
            EmuV { ppu: e.ppu.mask_written(value), ..e }
        } else if register == 0x2003 {
            EmuV { ppu: e.ppu.oamaddr_written(value), ..e }
        } else if register == 0x2004 {
            EmuV { ppu: e.ppu.oamdata_written(value), ..e }
        } else if register == 0x2005 {
            EmuV { ppu: e.ppu.scroll_written(value), ..e }
        } else if register == 0x2006 {
            EmuV { ppu: e.ppu.addr_written(value), ..e }
        } else if register == 0x2007 {
            EmuV { ppu: e.ppu.data_written(value), ..e }
        } else {
            e
        }
    } else if address == 0x4014 {
        EmuV { ppu: PpuV { oam: oam_after_dma(e, value), ..e.ppu }, ..e }
    } else if address == 0x4016 {
        EmuV { joypad: e.joypad.after_write(value), ..e }
    } else if 0x6000 <= address {
        match e.mapper {
            Some(m) => EmuV { mapper: Some(m.write(address, value)), ..e },
            None => e,
        }
    } else {
        e
    }
}

/// A 16-bit little-endian read: low byte first, then the high byte at the
/// next address (wrapping at the top of the address space), each with its
/// side effects.
pub open spec fn bus_read16(e: EmuV, address: u16) -> (EmuV, u16) {
    let (e1, low) = bus_read(e, address);
    let (e2, high) = bus_read(e1, ((address + 1) % 0x10000) as u16);
    (e2, (high * 256 + low) as u16)
}

/// A 16-bit read whose pointer wraps inside the zero page.
pub open spec fn bus_read16_zeropage(e: EmuV, address: u8) -> (EmuV, u16) {
    let (e1, low) = bus_read(e, address as u16);
    let (e2, high) = bus_read(e1, ((address + 1) % 256) as u16);
    (e2, (high * 256 + low) as u16)
}

/// The value a read at `address` would return, without any side effect.
pub open spec fn bus_peek(e: EmuV, address: u16) -> u8 {
    if address < 0x2000 {
        e.ram[(address % 0x800) as int]
    } else if address < 0x4000 {
        let register = mirrored_register(address);
        if register == 0x2002 {
            e.ppu.status_value()
        } else if register == 0x2004 {
            e.ppu.oamdata_value()
        } else if register == 0x2007 {
            e.ppu.data_value()
        } else {
            0u8
        }
    } else if address == 0x4016 {
        e.joypad.read_value()
    } else if 0x6000 <= address {
        match e.mapper {
            Some(m) => m.read(address),
            None => 0u8,
        }
    } else {
        0u8
    }
}

pub fn read8(emulator: &mut Emulator, address: u16) -> (value: u8)
    requires
        old(emulator)@.wf(),
    ensures
        final(emulator)@ == bus_read(old(emulator)@, address).0,
        value == bus_read(old(emulator)@, address).1,
        final(emulator)@.wf(),
{
    if address < 0x2000 {
        emulator.ram[(address as usize) % RAM_SIZE]
    } else if address < 0x4000 {
        let register = 0x2000 + (address - 0x2000) % 8;
        if register == 0x2002 {
            Ppustatus::read(&mut emulator.ppu)
        } else if register == 0x2004 {
            Oamdata::read(&mut emulator.ppu)
        } else if register == 0x2007 {
            Ppudata::read(&mut emulator.ppu)
        } else {
            0
        }
    } else if address == 0x4016 {
        emulator.joypad.read()
    } else if 0x6000 <= address {
        match &emulator.mapper {
            Some(m) => m.read(address),
            None => 0,
        }
    } else {
        0
    }
}

pub fn write(emulator: &mut Emulator, address: u16, value: u8)
    requires
        old(emulator)@.wf(),
    ensures
        final(emulator)@ == bus_write(old(emulator)@, address, value),
        final(emulator)@.wf(),
{
    if address < 0x2000 {
        emulator.ram[(address as usize) % RAM_SIZE] = value;
    } else if address < 0x4000 {
        let register = 0x2000 + (address - 0x2000) % 8;
        if register == 0x2000 {
            let enabling = value & 0x80 != 0 && emulator.ppu.ppuctrl & 0x80 == 0
                && emulator.ppu.ppustatus & 0x80 != 0;
            Ppuctrl::write(&mut emulator.ppu, value);
            if enabling {
                emulator.cpu.request_interrupt(Interrupt::Nmi);
            }
        } else if register == 0x2001 {
            Ppumask::write(&mut emulator.ppu, value);
        } else if register == 0x2003 {
            Oamaddr::write(&mut emulator.ppu, value);
        } else if register == 0x2004 {
            Oamdata::write(&mut emulator.ppu, value);
        } else if register == 0x2005 {
            Ppuscroll::write(&mut emulator.ppu, value);
        } else if register == 0x2006 {
            Ppuaddr::write(&mut emulator.ppu, value);
        } else if register == 0x2007 {
            Ppudata::write(&mut emulator.ppu, value);
        }
    } else if address == 0x4014 {
        Oamdma::write(emulator, value);
    } else if address == 0x4016 {
        emulator.joypad.write(value);
    } else if 0x6000 <= address {
        match &mut emulator.mapper {
            Some(m) => m.write(address, value),
            None => {}
        }
    }
}

pub fn read16(emulator: &mut Emulator, address: u16) -> (value: u16)
    requires
        old(emulator)@.wf(),
    ensures
        final(emulator)@ == bus_read16(old(emulator)@, address).0,
        value == bus_read16(old(emulator)@, address).1,
        final(emulator)@.wf(),
{
    let low = read8(emulator, address) as u16;
    let high = read8(emulator, ((address as u32 + 1) % 0x10000) as u16) as u16;
    high * 256 + low
}

pub fn read16_zeropage(emulator: &mut Emulator, address: u8) -> (value: u16)
    requires
        old(emulator)@.wf(),
    ensures
        final(emulator)@ == bus_read16_zeropage(old(emulator)@, address).0,
        value == bus_read16_zeropage(old(emulator)@, address).1,
        final(emulator)@.wf(),
{
    let low = read8(emulator, address as u16) as u16;
    let high = read8(emulator, ((address as u16 + 1) % 256)) as u16;
    high * 256 + low
}

/// Inspect the bus without disturbing it: the PPU buffer, the VBlank flag
/// and the joypad register all stay as they are.
pub fn read8_debug(emulator: &Emulator, address: u16) -> (value: u8)
    requires
        emulator@.wf(),
    ensures
        value == bus_peek(emulator@, address),
{
    if address < 0x2000 {
        emulator.ram[(address as usize) % RAM_SIZE]
    } else if address < 0x4000 {
        let register = 0x2000 + (address - 0x2000) % 8;
        if register == 0x2002 {
            Ppustatus::read_debug(&emulator.ppu)
        } else if register == 0x2004 {
            Oamdata::read_debug(&emulator.ppu)
        } else if register == 0x2007 {
            Ppudata::read_debug(&emulator.ppu)
        } else {
            0
        }
    } else if address == 0x4016 {
        emulator.joypad.read_debug()
    } else if 0x6000 <= address {
        match &emulator.mapper {
            Some(m) => m.read(address),
            None => 0,
        }
    } else {
        0
    }
}

pub fn read16_debug(emulator: &Emulator, address: u16) -> (value: u16)
    requires
        emulator@.wf(),
    ensures
        value == bus_peek(emulator@, address) +
            bus_peek(emulator@, ((address + 1) % 0x10000) as u16) * 256,
{
    let low = read8_debug(emulator, address) as u16;
    let high = read8_debug(emulator, ((address as u32 + 1) % 0x10000) as u16) as u16;
    high * 256 + low
}

} // verus!
