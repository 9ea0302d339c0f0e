//! PPU-side address space: pattern tables and nametables in one 0x3000-byte
//! backing store (pattern data comes from the cartridge CHR), the
//! 0x3000..=0x3EFF mirror of the nametables, and the 32-byte palette RAM
//! whose entries 0x10/0x14/0x18/0x1C alias 0x00/0x04/0x08/0x0C.
//!
//! The cartridge dictates how the four 1 KiB nametables fold onto the
//! available storage: horizontal mirroring pairs 0x2000 with 0x2400 and
//! 0x2800 with 0x2C00, vertical mirroring pairs 0x2000 with 0x2800 and
//! 0x2400 with 0x2C00, and a four-screen cartridge keeps all four apart.

use vstd::prelude::*;

verus! {

pub const TABLE_SIZE: usize = 0x3000;
pub const PALETTE_SIZE: usize = 0x20;

pub const MIRROR_HORIZONTAL: u8 = 0;
pub const MIRROR_VERTICAL: u8 = 1;
pub const MIRROR_FOUR_SCREEN: u8 = 2;

/// Palette RAM slot for a 0x3F00..=0x3FFF address: modulo 32, with the four
/// sprite-palette backdrop entries routed to their background aliases.
pub open spec fn palette_slot(addr: u16) -> int {
    let i = (addr % 0x20) as int;
    if i == 0x10 || i == 0x14 || i == 0x18 || i == 0x1c {
        i - 0x10
    } else {
        i
    }
}

/// Where an offset into the 4 KiB nametable region lands under the
/// cartridge's mirroring: horizontal keeps the left/right pair together,
/// vertical the top/bottom pair, four-screen folds nothing.
pub open spec fn nametable_slot(mirroring: u8, offset: int) -> int {
    if mirroring == MIRROR_HORIZONTAL {
        (offset % 0x400) + (if offset % 0x1000 >= 0x800 { 0x400int } else { 0int })
    } else if mirroring == MIRROR_VERTICAL {
        offset % 0x800
    } else {
        offset % 0x1000
    }
}

pub struct PpuMemory {
    pub table: Vec<u8>,
    pub palette: Vec<u8>,
    pub mirroring: u8,
}

#[verifier::ext_equal]
pub ghost struct PpuMemV {
    pub table: Seq<u8>,
    pub palette: Seq<u8>,
    pub mirroring: u8,
}

impl View for PpuMemory {
    type V = PpuMemV;

    open spec fn view(&self) -> PpuMemV {
        PpuMemV { table: self.table@, palette: self.palette@, mirroring: self.mirroring }
    }
}

impl PpuMemV {
    pub open spec fn wf(self) -> bool {
        &&& self.table.len() == TABLE_SIZE
        &&& self.palette.len() == PALETTE_SIZE
    }

    /// The index into the backing store that an address below the palette
    /// range reaches: pattern tables directly, nametables (and their
    /// 0x3000..=0x3EFF mirror) through the cartridge's mirroring.
    pub open spec fn table_slot(self, addr: u16) -> int {
        if addr < 0x2000 {
            addr as int
        } else if addr < 0x3000 {
            0x2000 + nametable_slot(self.mirroring, addr - 0x2000)
        } else {
            0x2000 + nametable_slot(self.mirroring, addr - 0x3000)
        }
    }

    pub open spec fn read(self, addr: u16) -> u8 {
        if addr < 0x3f00 {
            self.table[self.table_slot(addr)]
        } else {
            self.palette[palette_slot(addr)]
        }
    }

    pub open spec fn write(self, addr: u16, value: u8) -> PpuMemV {
        if addr < 0x3f00 {
            PpuMemV { table: self.table.update(self.table_slot(addr), value), ..self }
        } else {
            PpuMemV { palette: self.palette.update(palette_slot(addr), value), ..self }
        }
    }
}

impl PpuMemory {
    pub fn new() -> (memory: PpuMemory)
        ensures
            memory@.wf(),
            memory@.table == Seq::new(TABLE_SIZE as nat, |i: int| 0u8),
            memory@.palette == Seq::new(PALETTE_SIZE as nat, |i: int| 0u8),
            memory@.mirroring == MIRROR_HORIZONTAL,
    {
        let table: Vec<u8> = vec![0u8; TABLE_SIZE];
        let palette: Vec<u8> = vec![0u8; PALETTE_SIZE];
        proof {
            assert(table@ =~= Seq::new(TABLE_SIZE as nat, |i: int| 0u8));
            assert(palette@ =~= Seq::new(PALETTE_SIZE as nat, |i: int| 0u8));
        }
        PpuMemory { table, palette, mirroring: MIRROR_HORIZONTAL }
    }

    /// Copy the cartridge's character ROM into the front of the backing
    /// store. Data past the store's size (CHR larger than one 8 KiB unit
    /// plus the nametable area) is ignored.
    pub fn load_chr_rom(&mut self, chr_rom: &Vec<u8>)
        requires
            old(self)@.wf(),
        ensures
            final(self)@.wf(),
            final(self)@.palette == old(self)@.palette,
            final(self)@.mirroring == old(self)@.mirroring,
            final(self)@.table == Seq::new(
                TABLE_SIZE as nat,
                |i: int| if i < chr_rom@.len() { chr_rom@[i] } else { old(self)@.table[i] },
            ),
    {
        let count = if chr_rom.len() < TABLE_SIZE { chr_rom.len() } else { TABLE_SIZE };
        let mut i: usize = 0;
        while i < count
            invariant
                count <= chr_rom@.len(),
                count <= TABLE_SIZE,
                i <= count,
                self@.wf(),
                self@.palette == old(self)@.palette,
                self@.mirroring == old(self)@.mirroring,
                forall|j: int| 0 <= j < i ==> self@.table[j] == chr_rom@[j],
                forall|j: int| i <= j < TABLE_SIZE ==> self@.table[j] == old(self)@.table[j],
            decreases count - i,
        {
            self.table[i] = chr_rom[i];
            i += 1;
        }
        proof {
            assert(self@.table =~= Seq::new(
                TABLE_SIZE as nat,
                |i: int| if i < chr_rom@.len() { chr_rom@[i] } else { old(self)@.table[i] },
            ));
        }
    }

    /// Index of the backing-store byte for an address below the palette
    /// range, applying the cartridge's nametable mirroring.
    fn table_index(&self, addr: u16) -> (index: usize)
        requires
            addr < 0x3f00,
        ensures
            index == self@.table_slot(addr),
            index < TABLE_SIZE,
    {
        if addr < 0x2000 {
            addr as usize
        } else {
            let offset = if addr < 0x3000 {
                (addr - 0x2000) as usize
            } else {
                (addr - 0x3000) as usize
            };
            if self.mirroring == MIRROR_HORIZONTAL {
                0x2000 + (offset % 0x400) + (if offset % 0x1000 >= 0x800 { 0x400 } else { 0 })
            } else if self.mirroring == MIRROR_VERTICAL {
                0x2000 + offset % 0x800
            } else {
                0x2000 + offset % 0x1000
            }
        }
    }

    pub fn read(&self, addr: u16) -> (value: u8)
        requires
            self@.wf(),
            addr < 0x4000,
        ensures
            value == self@.read(addr),
    {
        if addr < 0x3f00 {
            let index = self.table_index(addr);
            self.table[index]
        } else {
            let slot = (addr % 0x20) as usize;
            if slot == 0x10 || slot == 0x14 || slot == 0x18 || slot == 0x1c {
                self.palette[slot - 0x10]
            } else {
                self.palette[slot]
            }
        }
    }

    pub fn write(&mut self, addr: u16, value: u8)
        requires
            old(self)@.wf(),
            addr < 0x4000,
        ensures
            final(self)@ == old(self)@.write(addr, value),
            final(self)@.wf(),
    {
        if addr < 0x3f00 {
            let index = self.table_index(addr);
            self.table[index] = value;
        } else {
            let slot = (addr % 0x20) as usize;
            if slot == 0x10 || slot == 0x14 || slot == 0x18 || slot == 0x1c {
                self.palette[slot - 0x10] = value;
            } else {
                self.palette[slot] = value;
            }
        }
    }
}

} // verus!
