//! The emulator root: it owns the RAM, the CPU, the PPU, the joypad, the
//! mapper and the screen, and advances them in lockstep — one CPU
//! instruction, then three PPU ticks per CPU cycle.

use vstd::prelude::*;

use crate::cpu::Cpu;
use crate::cpu::init_pc_spec;
use crate::cpu::step_spec;
use crate::joypad::Joypad;
use crate::mappers::create_mapper;
use crate::mappers::initial_mapper;
use crate::mappers::mapper_supported;
use crate::mappers::Mapper;
use crate::mappers::MapperV;
use crate::ppu::ticks_spec;
use crate::ppu::Ppu;
use crate::ppu::PpuV;
use crate::ppu_memory::PpuMemV;
use crate::ppu_memory::TABLE_SIZE;
use crate::screen::Screen;
use crate::screen::ScreenV;

verus! {

/// Why a cartridge image was rejected: a malformed or truncated file
/// (bad magic, zero program ROM, trainer present, sizes past the end),
/// or a mapper this core does not implement.
#[derive(Clone, Copy, Debug, PartialEq, Eq, Structural)]
pub enum CartridgeError {
    InvalidFormat,
    UnsupportedMapper,
}

pub const RAM_SIZE: usize = 0x800;

pub struct Emulator {
    pub ram: Vec<u8>,
    pub mapper: Option<Mapper>,
    pub cpu: Cpu,
    pub ppu: Ppu,
    pub joypad: Joypad,
    pub screen: Screen,
}

#[verifier::ext_equal]
pub ghost struct EmuV {
    pub ram: Seq<u8>,
    pub mapper: Option<MapperV>,
    pub cpu: Cpu,
    pub ppu: PpuV,
    pub joypad: Joypad,
    pub screen: ScreenV,
}

impl View for Emulator {
    type V = EmuV;

    open spec fn view(&self) -> EmuV {
        EmuV {
            ram: self.ram@,
            mapper: match self.mapper {
                Some(ref m) => Some(m@),
                None => None,
            },
            cpu: self.cpu,
            ppu: self.ppu@,
            joypad: self.joypad,
            screen: self.screen@,
        }
    }
}

impl EmuV {
    pub open spec fn wf(self) -> bool {
        &&& self.ram.len() == RAM_SIZE
        &&& self.ppu.wf()
        &&& self.screen.wf()
        &&& match self.mapper {
            Some(m) => m.wf(),
            None => true,
        }
    }

    /// Whether a cartridge has been loaded.
    pub open spec fn loaded(self) -> bool {
        self.mapper is Some
    }
}

impl Emulator {
    pub fn new() -> (emulator: Emulator)
        ensures
            emulator@.wf(),
            !emulator@.loaded(),
            emulator@.cpu == (Cpu {
                a: 0u8,
                x: 0u8,
                y: 0u8,
                pc: 0u16,
                s: 0xfdu8,
                p: 0x24u8,
                pending_interrupt: None::<crate::cpu::Interrupt>,
                page_crossed: false,
                branch_taken: false,
            }),
            emulator@.ram == Seq::new(RAM_SIZE as nat, |i: int| 0u8),
            !emulator@.screen.draw_requested,
    {
        let ram: Vec<u8> = vec![0u8; RAM_SIZE];
        proof {
            assert(ram@ =~= Seq::new(RAM_SIZE as nat, |i: int| 0u8));
        }
        Emulator {
            ram,
            mapper: None,
            cpu: Cpu::new(),
            ppu: Ppu::new(),
            joypad: Joypad::new(),
            screen: Screen::new(),
        }
    }

    /// Parse an iNES image, move its character ROM into the PPU, build
    /// the mapper and point PC at the reset vector. On error the
    /// emulator is left untouched.
    pub fn load(&mut self, bytes: &Vec<u8>) -> (result: Result<(), CartridgeError>)
        requires
            old(self)@.wf(),
        ensures
            final(self)@.wf(),
            result is Ok <==> cart_ok(bytes@),
            result is Ok ==> final(self)@ == load_spec(old(self)@, bytes@)
                && final(self)@.loaded(),
            result is Err ==> final(self)@ == old(self)@,
            result == Err::<(), CartridgeError>(CartridgeError::InvalidFormat)
                <==> !cart_format_ok(bytes@),
            result == Err::<(), CartridgeError>(CartridgeError::UnsupportedMapper)
                <==> cart_format_ok(bytes@) && !mapper_supported(cart_mapper_number(bytes@)),
    {
        if bytes.len() < 16 {
            return Err(CartridgeError::InvalidFormat);
        }
        if !(bytes[0] == 0x4e && bytes[1] == 0x45 && bytes[2] == 0x53 && bytes[3] == 0x1a) {
            return Err(CartridgeError::InvalidFormat);
        }
        if bytes[6] & 0x04 != 0 {
            return Err(CartridgeError::InvalidFormat);
        }
        let prg_units = bytes[4] as usize;
        if prg_units == 0 {
            return Err(CartridgeError::InvalidFormat);
        }
        let chr_units = bytes[5] as usize;
        let prg_len = prg_units * 0x4000;
        let chr_len = chr_units * 0x2000;
        if bytes.len() < 16 + prg_len + chr_len || bytes.len() - 16 - prg_len < chr_len {
            return Err(CartridgeError::InvalidFormat);
        }
        let mapper_number = (bytes[7] & 0xf0) | (bytes[6] >> 4);
        if !(mapper_number == 0 || mapper_number == 1 || mapper_number == 2
            || mapper_number == 4 || mapper_number == 7) {
            return Err(CartridgeError::UnsupportedMapper);
        }

        let mut chr_rom: Vec<u8> = Vec::new();
        let mut i: usize = 0;
        while i < chr_len
            invariant
                i <= chr_len,
                prg_len <= 0x400000,
                chr_len <= 0x200000,
                bytes@.len() >= 16 + prg_len + chr_len,
                chr_rom@.len() == i,
                forall|j: int| 0 <= j < i ==> chr_rom@[j] == bytes@[16 + prg_len + j],
            decreases chr_len - i,
        {
            chr_rom.push(bytes[16 + prg_len + i]);
            i += 1;
        }
        self.ppu.load_chr_rom(&chr_rom);
        self.ppu.memory.mirroring = if bytes[6] & 0x08 != 0 {
            crate::ppu_memory::MIRROR_FOUR_SCREEN
        } else {
            bytes[6] & 1
        };

        let mut prg_rom: Vec<u8> = Vec::new();
        let mut i: usize = 0;
        while i < prg_len
            invariant
                i <= prg_len,
                prg_len <= 0x400000,
                bytes@.len() >= 16 + prg_len,
                prg_rom@.len() == i,
                forall|j: int| 0 <= j < i ==> prg_rom@[j] == bytes@[16 + j],
            decreases prg_len - i,
        {
            prg_rom.push(bytes[16 + i]);
            i += 1;
        }
        proof {
            assert(prg_len % 0x4000 == 0 && prg_len >= 0x4000 && prg_len <= 255 * 0x4000)
                by (nonlinear_arith)
                requires
                    prg_len == prg_units * 0x4000,
                    1 <= prg_units <= 255,
            ;
            assert(prg_rom@ =~= bytes@.subrange(16, 16 + cart_prg_len(bytes@)));
            assert(chr_rom@ =~= bytes@.subrange(
                16 + cart_prg_len(bytes@),
                16 + cart_prg_len(bytes@) + cart_chr_len(bytes@),
            ));
        }
        match create_mapper(mapper_number, prg_rom) {
            Some(mapper) => {
                self.mapper = Some(mapper);
            }
            None => {
                // Unreachable: the number and the sizes were checked.
            }
        }
        Cpu::init_pc(self);
        proof {
            assert(final(self)@ =~= load_spec(old(self)@, bytes@));
        }
        Ok(())
    }

    /// Advance the machine by one CPU instruction and exactly three PPU
    /// ticks per cycle it consumed: the final state is the CPU step
    /// followed by the 3*c-fold tick transition. Returns false when the
    /// CPU halted on an undefined opcode; the machine then stays as the
    /// halt left it.
    pub fn step(&mut self) -> (running: bool)
        requires
            old(self)@.wf(),
        ensures
            final(self)@.wf(),
            running == (step_spec(old(self)@).1 is Some),
            !running ==> final(self)@ == step_spec(old(self)@).0,
            running ==> ({
                let after = step_spec(old(self)@).0;
                let ticked = ticks_spec(
                    after.ppu,
                    after.cpu,
                    after.screen,
                    3 * (step_spec(old(self)@).1->0 as int),
                );
                final(self)@ == (EmuV { ppu: ticked.0, cpu: ticked.1, screen: ticked.2, ..after })
            }),
    {
        match Cpu::execute_next_instruction(self) {
            Some(cycles) => {
                let total: u8 = 3 * cycles;
                let mut i: u8 = 0;
                while i < total
                    invariant
                        i <= total,
                        step_spec(old(self)@).1 is Some,
                        cycles == step_spec(old(self)@).1->0,
                        total == 3 * cycles,
                        self@.wf(),
                        self@.ram == step_spec(old(self)@).0.ram,
                        self@.mapper == step_spec(old(self)@).0.mapper,
                        self@.joypad == step_spec(old(self)@).0.joypad,
                        ({
                            let after = step_spec(old(self)@).0;
                            let ticked = ticks_spec(after.ppu, after.cpu, after.screen, i as int);
                            &&& self@.ppu == ticked.0
                            &&& self.cpu == ticked.1
                            &&& self@.screen == ticked.2
                        }),
                    decreases total - i,
                {
                    self.ppu.do_cycle(&mut self.cpu, &mut self.screen);
                    i += 1;
                }
                true
            }
            None => false,
        }
    }
}

/// Everything `load` checks before it accepts an image: the magic
/// number, no trainer, at least one program ROM unit, and a file long
/// enough for the sizes the header declares.
pub open spec fn cart_format_ok(bytes: Seq<u8>) -> bool {
    &&& bytes.len() >= 16
    &&& bytes[0] == 0x4e
    &&& bytes[1] == 0x45
    &&& bytes[2] == 0x53
    &&& bytes[3] == 0x1a
    &&& bytes[6] & 0x04 == 0
    &&& bytes[4] >= 1
    &&& bytes.len() >= 16 + cart_prg_len(bytes) + cart_chr_len(bytes)
}

pub open spec fn cart_prg_len(bytes: Seq<u8>) -> int {
    bytes[4] * 0x4000
}

pub open spec fn cart_chr_len(bytes: Seq<u8>) -> int {
    bytes[5] * 0x2000
}

/// The mapper number: high nibble of header byte 7, high nibble of
/// byte 6 as the low bits.
pub open spec fn cart_mapper_number(bytes: Seq<u8>) -> u8 {
    (bytes[7] & 0xf0) | (bytes[6] >> 4)
}

/// The nametable arrangement the header asks for: four-screen when bit 3
/// of byte 6 is set, otherwise vertical or horizontal per bit 0.
pub open spec fn cart_mirroring(bytes: Seq<u8>) -> u8 {
    if bytes[6] & 0x08 != 0 {
        crate::ppu_memory::MIRROR_FOUR_SCREEN
    } else {
        bytes[6] & 1
    }
}

pub open spec fn cart_ok(bytes: Seq<u8>) -> bool {
    cart_format_ok(bytes) && mapper_supported(cart_mapper_number(bytes))
}

/// The machine after a successful `load`: character ROM copied into the
/// PPU's backing store, a fresh mapper owning the program ROM, and PC
/// fetched from the reset vector.
pub open spec fn load_spec(e: EmuV, bytes: Seq<u8>) -> EmuV {
    let prg = bytes.subrange(16, 16 + cart_prg_len(bytes));
    let chr = bytes.subrange(
        16 + cart_prg_len(bytes),
        16 + cart_prg_len(bytes) + cart_chr_len(bytes),
    );
    let e1 = EmuV {
        ppu: PpuV {
            memory: PpuMemV {
                table: Seq::new(
                    TABLE_SIZE as nat,
                    |i: int| if i < chr.len() { chr[i] } else { e.ppu.memory.table[i] },
                ),
                mirroring: cart_mirroring(bytes),
                ..e.ppu.memory
            },
            ..e.ppu
        },
        mapper: Some(initial_mapper(cart_mapper_number(bytes), prg)),
        ..e
    };
    init_pc_spec(e1)
}

} // verus!
