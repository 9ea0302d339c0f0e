//! The system-wide laws of the core, each proved over the same spec
//! functions the executable code is verified against: RAM mirroring, PPU
//! register mirroring, the palette aliases, the shared write toggle, the
//! PPUSTATUS read side effects, the sprite-0 flag's set and clear
//! conditions, branch reach and cost, and the stack and status round
//! trips.

use vstd::prelude::*;

use crate::bus::bus_read;
use crate::bus::bus_write;
use crate::bus::mirrored_register;
use crate::cpu::branch_spec;
use crate::cpu::base_cycles;
use crate::cpu::cycle_count;
use crate::cpu::flag_value;
use crate::cpu::is_branch_opcode;
use crate::cpu::page_crossing_cycles;
use crate::cpu::plp_spec;
use crate::cpu::pull8_spec;
use crate::cpu::push8_spec;
use crate::cpu::read_next8_spec;
use crate::cpu::FLAG_B;
use crate::cpu::Cpu;
use crate::emulator::EmuV;
use crate::ppu::tick_spec;
use crate::ppu::PpuV;
use crate::screen::ScreenV;
use crate::ppu_memory::palette_slot;
use crate::ppu_memory::PpuMemV;

verus! {

/// A value written to internal RAM is the value read back through any
/// address that reaches the same RAM cell: the whole 0x0000..=0x1FFF
/// range collapses modulo 0x800.
pub proof fn lemma_ram_write_then_read(e: EmuV, write_addr: u16, read_addr: u16, value: u8)
    requires
        e.wf(),
        write_addr < 0x2000,
        read_addr < 0x2000,
        read_addr % 0x800 == write_addr % 0x800,
    ensures
        bus_read(bus_write(e, write_addr, value), read_addr).1 == value,
        bus_read(bus_write(e, write_addr, value), read_addr).0 == bus_write(e, write_addr, value),
{
}

/// Accessing any address in 0x2000..=0x3FFF behaves exactly like the
/// same access at 0x2000 + (address mod 8).
pub proof fn lemma_ppu_register_mirrors(e: EmuV, address: u16, value: u8)
    requires
        e.wf(),
        0x2000 <= address < 0x4000,
    ensures
        bus_read(e, address) == bus_read(e, mirrored_register(address)),
        bus_write(e, address, value) == bus_write(e, mirrored_register(address), value),
{
    assert(mirrored_register(mirrored_register(address)) == mirrored_register(address));
}

/// The four sprite-palette backdrop entries alias the background ones:
/// a write through either address of a pair is read back through the
/// other, in both directions.
pub proof fn lemma_palette_alias(memory: PpuMemV, write_addr: u16, read_addr: u16, value: u8)
    requires
        memory.wf(),
        0x3f00 <= write_addr < 0x4000,
        0x3f00 <= read_addr < 0x4000,
        palette_slot(write_addr) == palette_slot(read_addr),
    ensures
        memory.write(write_addr, value).read(read_addr) == value,
{
}

/// The alias pairs themselves: 0x3F10/0x3F14/0x3F18/0x3F1C fall together
/// with 0x3F00/0x3F04/0x3F08/0x3F0C.
pub proof fn lemma_palette_alias_pairs()
    ensures
        palette_slot(0x3f10) == palette_slot(0x3f00),
        palette_slot(0x3f14) == palette_slot(0x3f04),
        palette_slot(0x3f18) == palette_slot(0x3f08),
        palette_slot(0x3f1c) == palette_slot(0x3f0c),
{
}

/// PPUSCROLL and PPUADDR share one write toggle: each write to either
/// flips it, so after an odd number of writes to one register the next
/// write to the other completes the pair — an open PPUSCROLL write makes
/// a following PPUADDR write set the low address byte, and an open
/// PPUADDR write makes a following PPUSCROLL write set the y scroll.
pub proof fn lemma_shared_write_toggle(p: PpuV, first: u8, second: u8)
    ensures
        p.scroll_written(first).flipflop == !p.flipflop,
        p.addr_written(first).flipflop == !p.flipflop,
        !p.flipflop ==> p.scroll_written(first).addr_written(second).ppuaddr
            == ((p.ppuaddr & 0xff00) | (second as u16)) % 0x4000,
        !p.flipflop ==> p.scroll_written(first).addr_written(second).flipflop == false,
        !p.flipflop ==> p.addr_written(first).scroll_written(second).scroll_y == second,
        !p.flipflop ==> p.addr_written(first).scroll_written(second).flipflop == false,
{
}

/// Reading PPUSTATUS returns the register, clears its VBlank bit and
/// resets the shared write toggle; the other flags survive.
pub proof fn lemma_status_read_clears(p: PpuV)
    ensures
        p.status_value() == p.ppustatus,
        p.status_read().flipflop == false,
        p.status_read().ppustatus & 0x80 == 0,
        p.status_read().ppustatus & 0x40 == p.ppustatus & 0x40,
{
    let s = p.ppustatus;
    assert((s & 0x7f) & 0x80 == 0) by (bit_vector);
    assert((s & 0x7f) & 0x40 == s & 0x40) by (bit_vector);
}

/// The tick that renders a visible scanline sets the sprite-0 flag
/// exactly when sprites are enabled and an opaque sprite-0 pixel lands
/// on an opaque background pixel somewhere on that scanline (a flag that
/// is already set stays set); the tick entering the pre-render scanline
/// clears it.
pub proof fn lemma_sprite_zero_hit_flag(p: PpuV, c: Cpu, s: ScreenV)
    requires
        p.cycle_counter == 340,
    ensures
        ({
            let scanline = ((p.scanline_counter + 1) % 262) as u16;
            let advanced = PpuV { cycle_counter: 0u16, scanline_counter: scanline, ..p };
            &&& scanline <= 239 ==> (tick_spec(p, c, s).0.ppustatus & 0x40 != 0
                <==> p.ppustatus & 0x40 != 0
                    || (p.ppumask & 0x10 != 0 && advanced.sprite_zero_hits(scanline)))
            &&& scanline == 261 ==> tick_spec(p, c, s).0.ppustatus & 0x40 == 0
        }),
{
    let st = p.ppustatus;
    assert((st | 0x40) & 0x40 != 0) by (bit_vector);
    assert((st & 0x1f) & 0x40 == 0) by (bit_vector);
}

/// The signed displacement a branch offset byte stands for.
pub open spec fn branch_displacement(offset: u8) -> int {
    if offset >= 0x80 {
        offset - 256
    } else {
        offset as int
    }
}

/// A taken branch lands within 127 bytes either side of the address
/// after the offset byte (the one offset excluded from this bound is
/// -128), and costs one extra cycle, plus one more when it crosses a
/// page: a branch opcode's bill is 2, plus 1 if taken, plus 1 if the
/// target lies in another page.
pub proof fn lemma_branch_reach_and_cost(e: EmuV, flag: u8, expected: bool, opcode: u8)
    requires
        is_branch_opcode(opcode),
        !e.cpu.branch_taken,
        !e.cpu.page_crossed,
    ensures
        ({
            let (e1, offset) = read_next8_spec(e);
            flag_value(e1.cpu.p, flag) == expected && offset != 0x80 ==> {
                let target = branch_spec(e, flag, expected).cpu.pc;
                &&& -127 <= branch_displacement(offset) <= 127
                &&& target == ((e1.cpu.pc + branch_displacement(offset)) % 0x10000) as u16
            }
        }),
        ({
            let after = branch_spec(e, flag, expected);
            let (e1, offset) = read_next8_spec(e);
            &&& (flag_value(e1.cpu.p, flag) == expected <==> after.cpu.branch_taken)
            &&& cycle_count(opcode, after) == 2
                + (if after.cpu.page_crossed { 1int } else { 0int })
                + (if after.cpu.branch_taken { 1int } else { 0int })
        }),
{
    let (e1, offset) = read_next8_spec(e);
    if flag_value(e1.cpu.p, flag) == expected && offset != 0x80 {
        let pc = e1.cpu.pc;
        let target = branch_spec(e, flag, expected).cpu.pc;
        let d = branch_displacement(offset);
        if offset >= 0x80 {
            assert((pc + offset + 0xff00) % 0x10000 == (pc + d) % 0x10000) by (nonlinear_arith)
                requires
                    d == offset - 256,
                    0 <= pc < 0x10000,
                    0x80 <= offset < 0x100,
            ;
        }
        assert(target == ((pc + d) % 0x10000) as u16);
    }
    assert(base_cycles(opcode) == 2 && page_crossing_cycles(opcode) == 3);
}

/// Pushing a byte and pulling it straight back returns the byte and
/// restores the stack pointer.
pub proof fn lemma_push_pull_roundtrip(e: EmuV, value: u8)
    requires
        e.wf(),
    ensures
        pull8_spec(push8_spec(e, value)).1 == value,
        pull8_spec(push8_spec(e, value)).0.cpu.s == e.cpu.s,
        pull8_spec(push8_spec(e, value)).0.ram == push8_spec(e, value).ram,
{
    let s = e.cpu.s;
    assert(((s + 255) % 256 + 1) % 256 == s);
}

/// PHP pushes the status with bits 4 and 5 forced on; PLP restores it
/// with bit 5 forced on and bit 4 cleared. Since the stored status always
/// has bit 5 set and never bit 4, the pair restores P exactly.
pub proof fn lemma_php_plp_restores(e: EmuV)
    requires
        e.wf(),
        e.cpu.p & 0x20 == 0x20,
        e.cpu.p & FLAG_B == 0,
    ensures
        plp_spec(push8_spec(e, e.cpu.p | 0x30)).cpu.p == e.cpu.p,
{
    let p = e.cpu.p;
    let s = e.cpu.s;
    assert(((s + 255) % 256 + 1) % 256 == s);
    assert(p & 0x20 == 0x20 && p & 0x10 == 0 ==> ((p | 0x30) | 0x20) & !0x10u8 == p)
        by (bit_vector);
}

} // verus!
