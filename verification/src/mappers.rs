//! Cartridge mappers: address decoding and bank switching for the
//! 0x6000..=0xFFFF range of the CPU address space.
//!
//! Five variants are supported, selected by the cartridge's mapper number:
//! NROM (0), MMC1 (1), UxROM (2), MMC3 (4) and AxROM (7). Each owns the
//! program ROM; bank arithmetic is reduced modulo the ROM size, so a bank
//! select that points past the end of a small ROM wraps instead of failing.
//! MMC3 CHR banking, IRQ counting and mirroring control are stubbed.

use vstd::prelude::*;

verus! {

pub const PRG_RAM_SIZE: usize = 0x2000;
pub const PRG_BANK_16K: usize = 0x4000;
pub const PRG_BANK_8K: usize = 0x2000;

/// Program ROM sizes are whole 16 KiB units, at least one, at most 255.
pub open spec fn prg_rom_size_ok(len: nat) -> bool {
    &&& len >= 0x4000
    &&& len % 0x4000 == 0
    &&& len <= 0x400000
}

// ---------------------------------------------------------------- NROM ---

pub struct Nrom {
    pub prg_ram: Vec<u8>,
    pub prg_rom: Vec<u8>,
}

#[verifier::ext_equal]
pub ghost struct NromV {
    pub prg_ram: Seq<u8>,
    pub prg_rom: Seq<u8>,
}

impl View for Nrom {
    type V = NromV;

    open spec fn view(&self) -> NromV {
        NromV { prg_ram: self.prg_ram@, prg_rom: self.prg_rom@ }
    }
}

impl NromV {
    pub open spec fn wf(self) -> bool {
        &&& self.prg_ram.len() == PRG_RAM_SIZE
        &&& prg_rom_size_ok(self.prg_rom.len())
    }

    pub open spec fn read(self, addr: u16) -> u8 {
        if addr < 0x8000 {
            self.prg_ram[addr - 0x6000]
        } else {
            self.prg_rom[(addr - 0x8000) % (self.prg_rom.len() as int)]
        }
    }

    pub open spec fn write(self, addr: u16, value: u8) -> NromV {
        if addr < 0x8000 {
            NromV { prg_ram: self.prg_ram.update(addr - 0x6000, value), ..self }
        } else {
            self
        }
    }
}

impl Nrom {
    pub fn new(prg_rom: Vec<u8>) -> (nrom: Nrom)
        requires
            prg_rom_size_ok(prg_rom@.len()),
        ensures
            nrom@.wf(),
            nrom@.prg_rom == prg_rom@,
            nrom@.prg_ram == Seq::new(PRG_RAM_SIZE as nat, |i: int| 0u8),
    {
        let prg_ram: Vec<u8> = vec![0u8; PRG_RAM_SIZE];
        proof {
            assert(prg_ram@ =~= Seq::new(PRG_RAM_SIZE as nat, |i: int| 0u8));
        }
        Nrom { prg_ram, prg_rom }
    }

    pub fn read(&self, addr: u16) -> (value: u8)
        requires
            self@.wf(),
            0x6000 <= addr,
        ensures
            value == self@.read(addr),
    {
        if addr < 0x8000 {
            self.prg_ram[(addr - 0x6000) as usize]
        } else {
            self.prg_rom[(addr - 0x8000) as usize % self.prg_rom.len()]
        }
    }

    pub fn write(&mut self, addr: u16, value: u8)
        requires
            old(self)@.wf(),
            0x6000 <= addr,
        ensures
            final(self)@ == old(self)@.write(addr, value),
            final(self)@.wf(),
    {
        if addr < 0x8000 {
            self.prg_ram[(addr - 0x6000) as usize] = value;
        }
    }
}

// ---------------------------------------------------------------- MMC1 ---

pub struct Mmc1 {
    pub prg_ram: Vec<u8>,
    pub prg_rom: Vec<u8>,
    pub shift_register: u8,
    pub mirroring: u8,
    pub prg_rom_bank_mode: u8,
    pub chr_rom_bank_mode: u8,
    pub chr_bank_0: u8,
    pub chr_bank_1: u8,
    pub prg_rom_bank: u8,
    pub prg_ram_enable: bool,
}

#[verifier::ext_equal]
pub ghost struct Mmc1V {
    pub prg_ram: Seq<u8>,
    pub prg_rom: Seq<u8>,
    pub shift_register: u8,
    pub mirroring: u8,
    pub prg_rom_bank_mode: u8,
    pub chr_rom_bank_mode: u8,
    pub chr_bank_0: u8,
    pub chr_bank_1: u8,
    pub prg_rom_bank: u8,
    pub prg_ram_enable: bool,
}

impl View for Mmc1 {
    type V = Mmc1V;

    open spec fn view(&self) -> Mmc1V {
        Mmc1V {
            prg_ram: self.prg_ram@,
            prg_rom: self.prg_rom@,
            shift_register: self.shift_register,
            mirroring: self.mirroring,
            prg_rom_bank_mode: self.prg_rom_bank_mode,
            chr_rom_bank_mode: self.chr_rom_bank_mode,
            chr_bank_0: self.chr_bank_0,
            chr_bank_1: self.chr_bank_1,
            prg_rom_bank: self.prg_rom_bank,
            prg_ram_enable: self.prg_ram_enable,
        }
    }
}

impl Mmc1V {
    pub open spec fn wf(self) -> bool {
        &&& self.prg_ram.len() == PRG_RAM_SIZE
        &&& prg_rom_size_ok(self.prg_rom.len())
    }

    /// Offset into the program ROM for a read in 0x8000..=0xFFFF, before
    /// reduction modulo the ROM size.
    pub open spec fn rom_offset(self, addr: u16) -> int {
        if addr < 0xc000 {
            if self.prg_rom_bank_mode == 2 {
                addr - 0x8000
            } else if self.prg_rom_bank_mode == 3 {
                (addr - 0x8000) + 0x4000 * ((self.prg_rom_bank & 0b1111) as int)
            } else {
                (addr - 0x8000) + 0x8000 * ((self.prg_rom_bank & 0b1110) as int)
            }
        } else {
            if self.prg_rom_bank_mode == 2 {
                (addr - 0xc000) + 0x4000 * ((self.prg_rom_bank & 0b1111) as int)
            } else if self.prg_rom_bank_mode == 3 {
                (addr - 0xc000) + self.prg_rom.len() - 0x4000
            } else {
                (addr - 0x8000) + 0x8000 * ((self.prg_rom_bank & 0b1110) as int)
            }
        }
    }

    pub open spec fn read(self, addr: u16) -> u8 {
        if addr < 0x8000 {
            if self.prg_ram_enable {
                self.prg_ram[addr - 0x6000]
            } else {
                0u8
            }
        } else {
            self.prg_rom[self.rom_offset(addr) % (self.prg_rom.len() as int)]
        }
    }

    /// Effect of the fifth serial write: the low five collected bits land in
    /// the internal register selected by bits 13..=14 of the address.
    pub open spec fn load_register(self, addr: u16, bits: u8) -> Mmc1V {
        if addr < 0xa000 {
            Mmc1V {
                mirroring: bits & 0b11,
                prg_rom_bank_mode: (bits >> 2) & 0b11,
                chr_rom_bank_mode: bits >> 4,
                ..self
            }
        } else if addr < 0xc000 {
            Mmc1V { chr_bank_0: bits, ..self }
        } else if addr < 0xe000 {
            Mmc1V { chr_bank_1: bits, ..self }
        } else {
            Mmc1V {
                prg_rom_bank: bits & 0b1111,
                prg_ram_enable: (bits >> 4) == 0,
                ..self
            }
        }
    }

    pub open spec fn write(self, addr: u16, value: u8) -> Mmc1V {
        if addr < 0x8000 {
            if self.prg_ram_enable {
                Mmc1V { prg_ram: self.prg_ram.update(addr - 0x6000, value), ..self }
            } else {
                self
            }
        } else if value & 0x80 != 0 {
            Mmc1V { shift_register: 0b10000, prg_rom_bank_mode: 0b11, ..self }
        } else {
            let bits = ((value & 1) << 4) | (self.shift_register >> 1);
            if self.shift_register & 1 == 0 {
                Mmc1V { shift_register: bits, ..self }
            } else {
                Mmc1V { shift_register: 0b10000, ..self.load_register(addr, bits) }
            }
        }
    }
}

impl Mmc1 {
    pub fn new(prg_rom: Vec<u8>) -> (mmc1: Mmc1)
        requires
            prg_rom_size_ok(prg_rom@.len()),
        ensures
            mmc1@.wf(),
            mmc1@ == (Mmc1V {
                prg_ram: Seq::new(PRG_RAM_SIZE as nat, |i: int| 0u8),
                prg_rom: prg_rom@,
                shift_register: 0b10000u8,
                mirroring: 0u8,
                prg_rom_bank_mode: 0u8,
                chr_rom_bank_mode: 0u8,
                chr_bank_0: 0u8,
                chr_bank_1: 0u8,
                prg_rom_bank: 0u8,
                prg_ram_enable: false,
            }),
    {
        let prg_ram: Vec<u8> = vec![0u8; PRG_RAM_SIZE];
        proof {
            assert(prg_ram@ =~= Seq::new(PRG_RAM_SIZE as nat, |i: int| 0u8));
        }
        Mmc1 {
            prg_ram,
            prg_rom,
            shift_register: 0b10000,
            mirroring: 0,
            prg_rom_bank_mode: 0,
            chr_rom_bank_mode: 0,
            chr_bank_0: 0,
            chr_bank_1: 0,
            prg_rom_bank: 0,
            prg_ram_enable: false,
        }
    }

    pub fn read(&self, addr: u16) -> (value: u8)
        requires
            self@.wf(),
            0x6000 <= addr,
        ensures
            value == self@.read(addr),
    {
        if addr < 0x8000 {
            if self.prg_ram_enable {
                self.prg_ram[(addr - 0x6000) as usize]
            } else {
                0
            }
        } else {
            let offset: usize = if addr < 0xc000 {
                if self.prg_rom_bank_mode == 2 {
                    (addr - 0x8000) as usize
                } else if self.prg_rom_bank_mode == 3 {
                    (addr - 0x8000) as usize + 0x4000 * ((self.prg_rom_bank & 0b1111) as usize)
                } else {
                    (addr - 0x8000) as usize + 0x8000 * ((self.prg_rom_bank & 0b1110) as usize)
                }
            } else {
                if self.prg_rom_bank_mode == 2 {
                    (addr - 0xc000) as usize + 0x4000 * ((self.prg_rom_bank & 0b1111) as usize)
                } else if self.prg_rom_bank_mode == 3 {
                    (addr - 0xc000) as usize + self.prg_rom.len() - 0x4000
                } else {
                    (addr - 0x8000) as usize + 0x8000 * ((self.prg_rom_bank & 0b1110) as usize)
                }
            };
            self.prg_rom[offset % self.prg_rom.len()]
        }
    }

    pub fn write(&mut self, addr: u16, value: u8)
        requires
            old(self)@.wf(),
            0x6000 <= addr,
        ensures
            final(self)@ == old(self)@.write(addr, value),
            final(self)@.wf(),
    {
        if addr < 0x8000 {
            if self.prg_ram_enable {
                self.prg_ram[(addr - 0x6000) as usize] = value;
            }
        } else if value & 0x80 != 0 {
            self.shift_register = 0b10000;
            self.prg_rom_bank_mode = 0b11;
        } else {
            let bits = ((value & 1) << 4) | (self.shift_register >> 1);
            if self.shift_register & 1 == 0 {
                self.shift_register = bits;
            } else {
                if addr < 0xa000 {
                    self.mirroring = bits & 0b11;
                    self.prg_rom_bank_mode = (bits >> 2) & 0b11;
                    self.chr_rom_bank_mode = bits >> 4;
                } else if addr < 0xc000 {
                    self.chr_bank_0 = bits;
                } else if addr < 0xe000 {
                    self.chr_bank_1 = bits;
                } else {
                    self.prg_rom_bank = bits & 0b1111;
                    self.prg_ram_enable = (bits >> 4) == 0;
                }
                self.shift_register = 0b10000;
            }
        }
    }
}

// --------------------------------------------------------------- UxROM ---

pub struct Uxrom {
    pub prg_rom: Vec<u8>,
    pub prg_rom_bank: u8,
}

#[verifier::ext_equal]
pub ghost struct UxromV {
    pub prg_rom: Seq<u8>,
    pub prg_rom_bank: u8,
}

impl View for Uxrom {
    type V = UxromV;

    open spec fn view(&self) -> UxromV {
        UxromV { prg_rom: self.prg_rom@, prg_rom_bank: self.prg_rom_bank }
    }
}

impl UxromV {
    pub open spec fn wf(self) -> bool {
        prg_rom_size_ok(self.prg_rom.len())
    }

    pub open spec fn read(self, addr: u16) -> u8 {
        if addr < 0x8000 {
            0u8
        } else if addr < 0xc000 {
            self.prg_rom[
                ((addr - 0x8000) + 0x4000 * (self.prg_rom_bank as int)) % (self.prg_rom.len() as int)
            ]
        } else {
            self.prg_rom[(addr - 0xc000) + self.prg_rom.len() - 0x4000]
        }
    }

    pub open spec fn write(self, addr: u16, value: u8) -> UxromV {
        if addr < 0x8000 {
            self
        } else {
            UxromV { prg_rom_bank: value & 0b1111, ..self }
        }
    }
}

impl Uxrom {
    pub fn new(prg_rom: Vec<u8>) -> (uxrom: Uxrom)
        requires
            prg_rom_size_ok(prg_rom@.len()),
        ensures
            uxrom@.wf(),
            uxrom@ == (UxromV { prg_rom: prg_rom@, prg_rom_bank: 0u8 }),
    {
        Uxrom { prg_rom, prg_rom_bank: 0 }
    }

    pub fn read(&self, addr: u16) -> (value: u8)
        requires
            self@.wf(),
            0x6000 <= addr,
        ensures
            value == self@.read(addr),
    {
        if addr < 0x8000 {
            0
        } else if addr < 0xc000 {
            self.prg_rom[
                ((addr - 0x8000) as usize + 0x4000 * (self.prg_rom_bank as usize))
                    % self.prg_rom.len()
            ]
        } else {
            self.prg_rom[(addr - 0xc000) as usize + self.prg_rom.len() - 0x4000]
        }
    }

    pub fn write(&mut self, addr: u16, value: u8)
        requires
            old(self)@.wf(),
            0x6000 <= addr,
        ensures
            final(self)@ == old(self)@.write(addr, value),
            final(self)@.wf(),
    {
        if addr >= 0x8000 {
            self.prg_rom_bank = value & 0b1111;
        }
    }
}

// ---------------------------------------------------------------- MMC3 ---

pub struct Mmc3 {
    pub prg_ram: Vec<u8>,
    pub prg_rom: Vec<u8>,
    pub r: u8,
    pub prg_rom_bank_mode: u8,
    pub chr_a12_inversion: u8,
    pub prg_rom_bank_0: u8,
    pub prg_rom_bank_1: u8,
    pub mirroring: u8,
    pub prg_ram_enable: bool,
}

#[verifier::ext_equal]
pub ghost struct Mmc3V {
    pub prg_ram: Seq<u8>,
    pub prg_rom: Seq<u8>,
    pub r: u8,
    pub prg_rom_bank_mode: u8,
    pub chr_a12_inversion: u8,
    pub prg_rom_bank_0: u8,
    pub prg_rom_bank_1: u8,
    pub mirroring: u8,
    pub prg_ram_enable: bool,
}

impl View for Mmc3 {
    type V = Mmc3V;

    open spec fn view(&self) -> Mmc3V {
        Mmc3V {
            prg_ram: self.prg_ram@,
            prg_rom: self.prg_rom@,
            r: self.r,
            prg_rom_bank_mode: self.prg_rom_bank_mode,
            chr_a12_inversion: self.chr_a12_inversion,
            prg_rom_bank_0: self.prg_rom_bank_0,
            prg_rom_bank_1: self.prg_rom_bank_1,
            mirroring: self.mirroring,
            prg_ram_enable: self.prg_ram_enable,
        }
    }
}

impl Mmc3V {
    pub open spec fn wf(self) -> bool {
        &&& self.prg_ram.len() == PRG_RAM_SIZE
        &&& prg_rom_size_ok(self.prg_rom.len())
    }

    /// Offset into the program ROM for a read in 0x8000..=0xFFFF, before
    /// reduction modulo the ROM size. Four 8 KiB slots; the bank mode bit
    /// decides whether the first or the third slot is the switchable one,
    /// the other being fixed to the second-last bank.
    pub open spec fn rom_offset(self, addr: u16) -> int {
        if addr < 0xa000 {
            if self.prg_rom_bank_mode == 0 {
                (addr - 0x8000) + 0x2000 * (self.prg_rom_bank_0 as int)
            } else {
                (addr - 0x8000) + self.prg_rom.len() - 2 * 0x2000
            }
        } else if addr < 0xc000 {
            (addr - 0xa000) + 0x2000 * (self.prg_rom_bank_1 as int)
        } else if addr < 0xe000 {
            if self.prg_rom_bank_mode == 0 {
                (addr - 0xc000) + self.prg_rom.len() - 2 * 0x2000
            } else {
                (addr - 0xc000) + 0x2000 * (self.prg_rom_bank_0 as int)
            }
        } else {
            (addr - 0xe000) + self.prg_rom.len() - 0x2000
        }
    }

    pub open spec fn read(self, addr: u16) -> u8 {
        if addr < 0x8000 {
            if self.prg_ram_enable {
                self.prg_ram[addr - 0x6000]
            } else {
                0u8
            }
        } else {
            self.prg_rom[self.rom_offset(addr) % (self.prg_rom.len() as int)]
        }
    }

    pub open spec fn write(self, addr: u16, value: u8) -> Mmc3V {
        if addr < 0x8000 {
            if self.prg_ram_enable {
                Mmc3V { prg_ram: self.prg_ram.update(addr - 0x6000, value), ..self }
            } else {
                self
            }
        } else if addr < 0xa000 {
            if value % 2 == 0 {
                Mmc3V {
                    r: value & 0b111,
                    prg_rom_bank_mode: (value >> 6) & 1,
                    chr_a12_inversion: value >> 7,
                    ..self
                }
            } else if self.r == 6 {
                Mmc3V { prg_rom_bank_0: value & 0x3f, ..self }
            } else if self.r == 7 {
                Mmc3V { prg_rom_bank_1: value & 0x3f, ..self }
            } else {
                self
            }
        } else if addr < 0xc000 {
            if value % 2 == 0 {
                Mmc3V { mirroring: value & 1, ..self }
            } else {
                Mmc3V { prg_ram_enable: (value >> 7) == 1, ..self }
            }
        } else {
            self
        }
    }
}

impl Mmc3 {
    pub fn new(prg_rom: Vec<u8>) -> (mmc3: Mmc3)
        requires
            prg_rom_size_ok(prg_rom@.len()),
        ensures
            mmc3@.wf(),
            mmc3@ == (Mmc3V {
                prg_ram: Seq::new(PRG_RAM_SIZE as nat, |i: int| 0u8),
                prg_rom: prg_rom@,
                r: 0u8,
                prg_rom_bank_mode: 0u8,
                chr_a12_inversion: 0u8,
                prg_rom_bank_0: 0u8,
                prg_rom_bank_1: 0u8,
                mirroring: 0u8,
                prg_ram_enable: false,
            }),
    {
        let prg_ram: Vec<u8> = vec![0u8; PRG_RAM_SIZE];
        proof {
            assert(prg_ram@ =~= Seq::new(PRG_RAM_SIZE as nat, |i: int| 0u8));
        }
        Mmc3 {
            prg_ram,
            prg_rom,
            r: 0,
            prg_rom_bank_mode: 0,
            chr_a12_inversion: 0,
            prg_rom_bank_0: 0,
            prg_rom_bank_1: 0,
            mirroring: 0,
            prg_ram_enable: false,
        }
    }

    pub fn read(&self, addr: u16) -> (value: u8)
        requires
            self@.wf(),
            0x6000 <= addr,
        ensures
            value == self@.read(addr),
    {
        if addr < 0x8000 {
            if self.prg_ram_enable {
                self.prg_ram[(addr - 0x6000) as usize]
            } else {
                0
            }
        } else {
            let offset: usize = if addr < 0xa000 {
                if self.prg_rom_bank_mode == 0 {
                    (addr - 0x8000) as usize + 0x2000 * (self.prg_rom_bank_0 as usize)
                } else {
                    (addr - 0x8000) as usize + self.prg_rom.len() - 2 * 0x2000
                }
            } else if addr < 0xc000 {
                (addr - 0xa000) as usize + 0x2000 * (self.prg_rom_bank_1 as usize)
            } else if addr < 0xe000 {
                if self.prg_rom_bank_mode == 0 {
                    (addr - 0xc000) as usize + self.prg_rom.len() - 2 * 0x2000
                } else {
                    (addr - 0xc000) as usize + 0x2000 * (self.prg_rom_bank_0 as usize)
                }
            } else {
                (addr - 0xe000) as usize + self.prg_rom.len() - 0x2000
            };
            self.prg_rom[offset % self.prg_rom.len()]
        }
    }

    pub fn write(&mut self, addr: u16, value: u8)
        requires
            old(self)@.wf(),
            0x6000 <= addr,
        ensures
            final(self)@ == old(self)@.write(addr, value),
            final(self)@.wf(),
    {
        if addr < 0x8000 {
            if self.prg_ram_enable {
                self.prg_ram[(addr - 0x6000) as usize] = value;
            }
        } else if addr < 0xa000 {
            if value % 2 == 0 {
                self.r = value & 0b111;
                self.prg_rom_bank_mode = (value >> 6) & 1;
                self.chr_a12_inversion = value >> 7;
            } else if self.r == 6 {
                self.prg_rom_bank_0 = value & 0x3f;
            } else if self.r == 7 {
                self.prg_rom_bank_1 = value & 0x3f;
            }
        } else if addr < 0xc000 {
            if value % 2 == 0 {
                self.mirroring = value & 1;
            } else {
                self.prg_ram_enable = (value >> 7) == 1;
            }
        }
    }
}

// --------------------------------------------------------------- AxROM ---

pub struct Axrom {
    pub prg_rom: Vec<u8>,
    pub prg_rom_bank: u8,
}

#[verifier::ext_equal]
pub ghost struct AxromV {
    pub prg_rom: Seq<u8>,
    pub prg_rom_bank: u8,
}

impl View for Axrom {
    type V = AxromV;

    open spec fn view(&self) -> AxromV {
        AxromV { prg_rom: self.prg_rom@, prg_rom_bank: self.prg_rom_bank }
    }
}

impl AxromV {
    pub open spec fn wf(self) -> bool {
        prg_rom_size_ok(self.prg_rom.len())
    }

    pub open spec fn read(self, addr: u16) -> u8 {
        if addr < 0x8000 {
            0u8
        } else {
            self.prg_rom[
                ((addr - 0x8000) + 0x8000 * (self.prg_rom_bank as int)) % (self.prg_rom.len() as int)
            ]
        }
    }

    pub open spec fn write(self, addr: u16, value: u8) -> AxromV {
        if addr < 0x8000 {
            self
        } else {
            AxromV { prg_rom_bank: value & 0b111, ..self }
        }
    }
}

impl Axrom {
    pub fn new(prg_rom: Vec<u8>) -> (axrom: Axrom)
        requires
            prg_rom_size_ok(prg_rom@.len()),
        ensures
            axrom@.wf(),
            axrom@ == (AxromV { prg_rom: prg_rom@, prg_rom_bank: 0u8 }),
    {
        Axrom { prg_rom, prg_rom_bank: 0 }
    }

    pub fn read(&self, addr: u16) -> (value: u8)
        requires
            self@.wf(),
            0x6000 <= addr,
        ensures
            value == self@.read(addr),
    {
        if addr < 0x8000 {
            0
        } else {
            self.prg_rom[
                ((addr - 0x8000) as usize + 0x8000 * (self.prg_rom_bank as usize))
                    % self.prg_rom.len()
            ]
        }
    }

    pub fn write(&mut self, addr: u16, value: u8)
        requires
            old(self)@.wf(),
            0x6000 <= addr,
        ensures
            final(self)@ == old(self)@.write(addr, value),
            final(self)@.wf(),
    {
        if addr >= 0x8000 {
            self.prg_rom_bank = value & 0b111;
        }
    }
}

// ----------------------------------------------------- the tagged union ---

pub enum Mapper {
    Nrom(Nrom),
    Mmc1(Mmc1),
    Uxrom(Uxrom),
    Mmc3(Mmc3),
    Axrom(Axrom),
}

#[verifier::ext_equal]
pub ghost enum MapperV {
    Nrom(NromV),
    Mmc1(Mmc1V),
    Uxrom(UxromV),
    Mmc3(Mmc3V),
    Axrom(AxromV),
}

impl View for Mapper {
    type V = MapperV;

    open spec fn view(&self) -> MapperV {
        match self {
            Mapper::Nrom(m) => MapperV::Nrom(m@),
            Mapper::Mmc1(m) => MapperV::Mmc1(m@),
            Mapper::Uxrom(m) => MapperV::Uxrom(m@),
            Mapper::Mmc3(m) => MapperV::Mmc3(m@),
            Mapper::Axrom(m) => MapperV::Axrom(m@),
        }
    }
}

impl MapperV {
    pub open spec fn wf(self) -> bool {
        match self {
            MapperV::Nrom(m) => m.wf(),
            MapperV::Mmc1(m) => m.wf(),
            MapperV::Uxrom(m) => m.wf(),
            MapperV::Mmc3(m) => m.wf(),
            MapperV::Axrom(m) => m.wf(),
        }
    }

    pub open spec fn read(self, addr: u16) -> u8 {
        match self {
            MapperV::Nrom(m) => m.read(addr),
            MapperV::Mmc1(m) => m.read(addr),
            MapperV::Uxrom(m) => m.read(addr),
            MapperV::Mmc3(m) => m.read(addr),
            MapperV::Axrom(m) => m.read(addr),
        }
    }

    pub open spec fn write(self, addr: u16, value: u8) -> MapperV {
        match self {
            MapperV::Nrom(m) => MapperV::Nrom(m.write(addr, value)),
            MapperV::Mmc1(m) => MapperV::Mmc1(m.write(addr, value)),
            MapperV::Uxrom(m) => MapperV::Uxrom(m.write(addr, value)),
            MapperV::Mmc3(m) => MapperV::Mmc3(m.write(addr, value)),
            MapperV::Axrom(m) => MapperV::Axrom(m.write(addr, value)),
        }
    }
}

impl Mapper {
    pub fn read(&self, addr: u16) -> (value: u8)
        requires
            self@.wf(),
            0x6000 <= addr,
        ensures
            value == self@.read(addr),
    {
        match self {
            Mapper::Nrom(m) => m.read(addr),
            Mapper::Mmc1(m) => m.read(addr),
            Mapper::Uxrom(m) => m.read(addr),
            Mapper::Mmc3(m) => m.read(addr),
            Mapper::Axrom(m) => m.read(addr),
        }
    }

    pub fn write(&mut self, addr: u16, value: u8)
        requires
            old(self)@.wf(),
            0x6000 <= addr,
        ensures
            final(self)@ == old(self)@.write(addr, value),
            final(self)@.wf(),
    {
        match self {
            Mapper::Nrom(m) => m.write(addr, value),
            Mapper::Mmc1(m) => m.write(addr, value),
            Mapper::Uxrom(m) => m.write(addr, value),
            Mapper::Mmc3(m) => m.write(addr, value),
            Mapper::Axrom(m) => m.write(addr, value),
        }
    }
}

/// Whether a mapper number is one of the supported variants.
pub open spec fn mapper_supported(number: u8) -> bool {
    number == 0 || number == 1 || number == 2 || number == 4 || number == 7
}

/// The state a freshly created mapper starts in: zeroed program RAM,
/// first banks selected, MMC1's shift register primed.
pub open spec fn initial_mapper(number: u8, prg_rom: Seq<u8>) -> MapperV {
    if number == 0 {
        MapperV::Nrom(NromV {
            prg_ram: Seq::new(PRG_RAM_SIZE as nat, |i: int| 0u8),
            prg_rom: prg_rom,
        })
    } else if number == 1 {
        MapperV::Mmc1(Mmc1V {
            prg_ram: Seq::new(PRG_RAM_SIZE as nat, |i: int| 0u8),
            prg_rom: prg_rom,
            shift_register: 0b10000u8,
            mirroring: 0u8,
            prg_rom_bank_mode: 0u8,
            chr_rom_bank_mode: 0u8,
            chr_bank_0: 0u8,
            chr_bank_1: 0u8,
            prg_rom_bank: 0u8,
            prg_ram_enable: false,
        })
    } else if number == 2 {
        MapperV::Uxrom(UxromV { prg_rom: prg_rom, prg_rom_bank: 0u8 })
    } else if number == 4 {
        MapperV::Mmc3(Mmc3V {
            prg_ram: Seq::new(PRG_RAM_SIZE as nat, |i: int| 0u8),
            prg_rom: prg_rom,
            r: 0u8,
            prg_rom_bank_mode: 0u8,
            chr_a12_inversion: 0u8,
            prg_rom_bank_0: 0u8,
            prg_rom_bank_1: 0u8,
            mirroring: 0u8,
            prg_ram_enable: false,
        })
    } else {
        MapperV::Axrom(AxromV { prg_rom: prg_rom, prg_rom_bank: 0u8 })
    }
}

/// Build the mapper selected by the cartridge's mapper number. Returns
/// `None` for an unsupported number or a program ROM that is not a
/// positive number of whole 16 KiB units.
pub fn create_mapper(number: u8, prg_rom: Vec<u8>) -> (mapper: Option<Mapper>)
    ensures
        mapper is Some <==> mapper_supported(number) && prg_rom_size_ok(prg_rom@.len()),
        mapper is Some ==> {
            &&& mapper->0@.wf()
            &&& mapper->0@ == initial_mapper(number, prg_rom@)
        },
{
    if prg_rom.len() < 0x4000 || prg_rom.len() % 0x4000 != 0 || prg_rom.len() > 0x400000 {
        return None;
    }
    match number {
        0 => Some(Mapper::Nrom(Nrom::new(prg_rom))),
        1 => Some(Mapper::Mmc1(Mmc1::new(prg_rom))),
        2 => Some(Mapper::Uxrom(Uxrom::new(prg_rom))),
        4 => Some(Mapper::Mmc3(Mmc3::new(prg_rom))),
        7 => Some(Mapper::Axrom(Axrom::new(prg_rom))),
        _ => None,
    }
}

} // verus!
