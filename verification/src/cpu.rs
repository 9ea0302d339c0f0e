//! The 6502-derivative CPU: registers, processor status flags, the
//! arithmetic/logic helpers shared by many opcodes, and the instruction
//! interpreter itself.
//!
//! `execute_next_instruction` services a pending interrupt, fetches one
//! opcode, executes it, and reports the cycles it consumed (between 2 and
//! 8, counting the extra cycle for a taken branch and for a page-crossing
//! access). The decimal flag can be set and cleared but never affects
//! arithmetic. An undefined opcode or one of the halt opcodes stops the
//! machine; this is reported instead of a cycle count.

use vstd::prelude::*;

use crate::bus;
use crate::bus::bus_read;
use crate::bus::bus_read16;
use crate::bus::bus_read16_zeropage;
use crate::bus::bus_write;
use crate::emulator::EmuV;
use crate::emulator::Emulator;

verus! {

pub const FLAG_C: u8 = 0x01;
pub const FLAG_Z: u8 = 0x02;
pub const FLAG_I: u8 = 0x04;
pub const FLAG_D: u8 = 0x08;
pub const FLAG_B: u8 = 0x10;
pub const FLAG_V: u8 = 0x40;
pub const FLAG_N: u8 = 0x80;

pub const STACK_ADDRESS: u16 = 0x100;
pub const NMI_VECTOR_ADDRESS: u16 = 0xfffa;
pub const RESET_VECTOR_ADDRESS: u16 = 0xfffc;
pub const IRQ_VECTOR_ADDRESS: u16 = 0xfffe;

#[derive(Clone, Copy, Debug, PartialEq, Eq, Structural)]
pub enum Interrupt {
    Irq,
    Nmi,
}

#[derive(Clone, Copy, PartialEq, Eq, Structural)]
pub struct Cpu {
    pub a: u8,
    pub x: u8,
    pub y: u8,
    pub pc: u16,
    pub s: u8,
    pub p: u8,
    pub pending_interrupt: Option<Interrupt>,
    pub page_crossed: bool,
    pub branch_taken: bool,
}

/// Whether `flag` (a one-bit mask) is set in the status byte `p`.
pub open spec fn flag_value(p: u8, flag: u8) -> bool {
    p & flag != 0
}

/// The status byte `p` with `flag` (a one-bit mask) set or cleared.
pub open spec fn flag_written(p: u8, flag: u8, value: bool) -> u8 {
    if value {
        p | flag
    } else {
        p & !flag
    }
}

/// The status byte after an operation produced `value`: N mirrors bit 7,
/// Z records whether the value is zero.
pub open spec fn nz_written(p: u8, value: u8) -> u8 {
    flag_written(flag_written(p, FLAG_N, value >= 0x80), FLAG_Z, value == 0)
}

/// Logical shift right: (new status, result).
pub open spec fn lsr_spec(p: u8, value: u8) -> (u8, u8) {
    let result = value >> 1;
    (nz_written(flag_written(p, FLAG_C, value & 1 == 1), result), result)
}

/// Arithmetic shift left: (new status, result).
pub open spec fn asl_spec(p: u8, value: u8) -> (u8, u8) {
    let result = (value & 0x7f) << 1;
    (nz_written(flag_written(p, FLAG_C, value >> 7 == 1), result), result)
}

/// Rotate right through carry: (new status, result).
pub open spec fn ror_spec(p: u8, value: u8) -> (u8, u8) {
    let c: u8 = if flag_value(p, FLAG_C) { 1 } else { 0 };
    let result = (c << 7) | (value >> 1);
    (nz_written(flag_written(p, FLAG_C, value & 1 == 1), result), result)
}

/// Rotate left through carry: (new status, result).
pub open spec fn rol_spec(p: u8, value: u8) -> (u8, u8) {
    let c: u8 = if flag_value(p, FLAG_C) { 1 } else { 0 };
    let result = ((value & 0x7f) << 1) | c;
    (nz_written(flag_written(p, FLAG_C, value >> 7 == 1), result), result)
}

/// Add with carry (binary mode): (new status, new accumulator). C reports
/// unsigned overflow, V signed overflow of the eight-bit addition.
pub open spec fn adc_spec(p: u8, a: u8, value: u8) -> (u8, u8) {
    let carry: int = if flag_value(p, FLAG_C) { 1 } else { 0 };
    let sum: int = a + value + carry;
    let result: u8 = (sum % 256) as u8;
    let p1 = flag_written(p, FLAG_C, sum > 0xff);
    let p2 = flag_written(p1, FLAG_V, (a ^ result) & (value ^ result) & 0x80 != 0);
    (nz_written(p2, result), result)
}

/// Increment modulo 256: (new status, result).
pub open spec fn inc_spec(p: u8, value: u8) -> (u8, u8) {
    let result = ((value + 1) % 256) as u8;
    (nz_written(p, result), result)
}

/// Decrement modulo 256: (new status, result).
pub open spec fn dec_spec(p: u8, value: u8) -> (u8, u8) {
    let result = ((value + 255) % 256) as u8;
    (nz_written(p, result), result)
}

/// Compare a register with an operand: C is set when the register is at
/// least the operand, N and Z describe the wrapped difference.
pub open spec fn compare_spec(p: u8, register: u8, value: u8) -> u8 {
    nz_written(
        flag_written(p, FLAG_C, register >= value),
        (((register + 256) - value) % 256) as u8,
    )
}

impl Cpu {
    /// Cold reset state.
    pub fn new() -> (cpu: Cpu)
        ensures
            cpu == (Cpu {
                a: 0u8,
                x: 0u8,
                y: 0u8,
                pc: 0u16,
                s: 0xfdu8,
                p: 0x24u8,
                pending_interrupt: None::<Interrupt>,
                page_crossed: false,
                branch_taken: false,
            }),
    {
        Cpu {
            a: 0,
            x: 0,
            y: 0,
            pc: 0,
            s: 0xfd,
            p: 0x24,
            pending_interrupt: None,
            page_crossed: false,
            branch_taken: false,
        }
    }

    pub fn get_flag(&self, flag: u8) -> (value: bool)
        ensures
            value == flag_value(self.p, flag),
    {
        (self.p & flag) != 0
    }

    pub fn set_flag(&mut self, flag: u8, value: bool)
        ensures
            *final(self) == (Cpu { p: flag_written(old(self).p, flag, value), ..*old(self) }),
    {
        if value {
            self.p |= flag;
        } else {
            self.p &= !flag;
        }
    }

    pub fn set_nz_flags(&mut self, value: u8)
        ensures
            *final(self) == (Cpu { p: nz_written(old(self).p, value), ..*old(self) }),
    {
        self.set_flag(FLAG_N, value >= 0x80);
        self.set_flag(FLAG_Z, value == 0);
    }

    pub fn lsr_value(&mut self, value: u8) -> (result: u8)
        ensures
            *final(self) == (Cpu { p: lsr_spec(old(self).p, value).0, ..*old(self) }),
            result == lsr_spec(old(self).p, value).1,
    {
        self.set_flag(FLAG_C, (value & 1) == 1);
        let result = value >> 1;
        self.set_nz_flags(result);
        result
    }

    pub fn asl_value(&mut self, value: u8) -> (result: u8)
        ensures
            *final(self) == (Cpu { p: asl_spec(old(self).p, value).0, ..*old(self) }),
            result == asl_spec(old(self).p, value).1,
    {
        self.set_flag(FLAG_C, (value >> 7) == 1);
        let result = (value & 0x7f) << 1;
        self.set_nz_flags(result);
        result
    }

    pub fn ror_value(&mut self, value: u8) -> (result: u8)
        ensures
            *final(self) == (Cpu { p: ror_spec(old(self).p, value).0, ..*old(self) }),
            result == ror_spec(old(self).p, value).1,
    {
        let c: u8 = if self.get_flag(FLAG_C) { 1 } else { 0 };
        self.set_flag(FLAG_C, (value & 1) == 1);
        let result = (c << 7) | (value >> 1);
        self.set_nz_flags(result);
        result
    }

    pub fn rol_value(&mut self, value: u8) -> (result: u8)
        ensures
            *final(self) == (Cpu { p: rol_spec(old(self).p, value).0, ..*old(self) }),
            result == rol_spec(old(self).p, value).1,
    {
        let c: u8 = if self.get_flag(FLAG_C) { 1 } else { 0 };
        self.set_flag(FLAG_C, (value >> 7) == 1);
        let result = ((value & 0x7f) << 1) | c;
        self.set_nz_flags(result);
        result
    }

    pub fn adc_value(&mut self, value: u8)
        ensures
            *final(self) == (Cpu {
                p: adc_spec(old(self).p, old(self).a, value).0,
                a: adc_spec(old(self).p, old(self).a, value).1,
                ..*old(self)
            }),
    {
        let carry: u16 = if self.get_flag(FLAG_C) { 1 } else { 0 };
        let sum: u16 = self.a as u16 + value as u16 + carry;
        self.set_flag(FLAG_C, sum > 0xff);
        let result = (sum % 256) as u8;
        self.set_flag(FLAG_V, ((self.a ^ result) & (value ^ result) & 0x80) != 0);
        self.a = result;
        self.set_nz_flags(result);
    }

    pub fn inc_value(&mut self, value: u8) -> (result: u8)
        ensures
            *final(self) == (Cpu { p: inc_spec(old(self).p, value).0, ..*old(self) }),
            result == inc_spec(old(self).p, value).1,
    {
        let result = ((value as u16 + 1) % 256) as u8;
        self.set_nz_flags(result);
        result
    }

    pub fn dec_value(&mut self, value: u8) -> (result: u8)
        ensures
            *final(self) == (Cpu { p: dec_spec(old(self).p, value).0, ..*old(self) }),
            result == dec_spec(old(self).p, value).1,
    {
        let result = ((value as u16 + 255) % 256) as u8;
        self.set_nz_flags(result);
        result
    }

    /// How this CPU stands after latching `interrupt`: a pending
    /// non-maskable interrupt is never downgraded.
    pub open spec fn interrupt_requested(self, interrupt: Interrupt) -> Cpu {
        Cpu {
            pending_interrupt: if self.pending_interrupt == Some(Interrupt::Nmi) {
                self.pending_interrupt
            } else {
                Some(interrupt)
            },
            ..self
        }
    }

    /// Latch an interrupt request. A pending non-maskable interrupt is
    /// never downgraded; anything else is overwritten.
    pub fn request_interrupt(&mut self, interrupt: Interrupt)
        ensures
            *final(self) == (Cpu {
                pending_interrupt: if old(self).pending_interrupt == Some(Interrupt::Nmi) {
                    old(self).pending_interrupt
                } else {
                    Some(interrupt)
                },
                ..*old(self)
            }),
    {
        match self.pending_interrupt {
            Some(Interrupt::Nmi) => {}
            _ => { self.pending_interrupt = Some(interrupt); }
        }
    }
}

// -------------------------------------------------- fetching operands ---

/// The nine ways an instruction names its operand.
pub enum Mode {
    Immediate,
    ZeroPage,
    ZeroPageX,
    ZeroPageY,
    Absolute,
    AbsoluteX,
    AbsoluteY,
    IndirectX,
    IndirectY,
}

/// Fetch the byte at PC and advance PC.
pub open spec fn read_next8_spec(e: EmuV) -> (EmuV, u8) {
    let (e1, value) = bus_read(e, e.cpu.pc);
    (EmuV { cpu: Cpu { pc: ((e.cpu.pc + 1) % 0x10000) as u16, ..e1.cpu }, ..e1 }, value)
}

/// Fetch the little-endian word at PC and advance PC past it.
pub open spec fn read_next16_spec(e: EmuV) -> (EmuV, u16) {
    let (e1, value) = bus_read16(e, e.cpu.pc);
    (EmuV { cpu: Cpu { pc: ((e.cpu.pc + 2) % 0x10000) as u16, ..e1.cpu }, ..e1 }, value)
}

/// Whether two addresses lie in different 256-byte pages.
pub open spec fn pages_differ(a: u16, b: u16) -> bool {
    a & 0xff00 != b & 0xff00
}

/// The effective address an addressing mode computes, with the reads and
/// the PC advance it performs. The indexed absolute and post-indexed
/// modes record whether the index carried into the next page.
pub open spec fn mode_address(e: EmuV, mode: Mode) -> (EmuV, u16) {
    match mode {
        Mode::Immediate => (
            EmuV { cpu: Cpu { pc: ((e.cpu.pc + 1) % 0x10000) as u16, ..e.cpu }, ..e },
            e.cpu.pc,
        ),
        Mode::ZeroPage => {
            let (e1, operand) = read_next8_spec(e);
            (e1, operand as u16)
        }
        Mode::ZeroPageX => {
            let (e1, operand) = read_next8_spec(e);
            (e1, (((operand + e1.cpu.x) % 256) as u16))
        }
        Mode::ZeroPageY => {
            let (e1, operand) = read_next8_spec(e);
            (e1, (((operand + e1.cpu.y) % 256) as u16))
        }
        Mode::Absolute => read_next16_spec(e),
        Mode::AbsoluteX => {
            let (e1, base) = read_next16_spec(e);
            let effective = ((base + e1.cpu.x) % 0x10000) as u16;
            (
                EmuV {
                    cpu: Cpu { page_crossed: pages_differ(base, effective), ..e1.cpu },
                    ..e1
                },
                effective,
            )
        }
        Mode::AbsoluteY => {
            let (e1, base) = read_next16_spec(e);
            let effective = ((base + e1.cpu.y) % 0x10000) as u16;
            (
                EmuV {
                    cpu: Cpu { page_crossed: pages_differ(base, effective), ..e1.cpu },
                    ..e1
                },
                effective,
            )
        }
        Mode::IndirectX => {
            let (e1, operand) = read_next8_spec(e);
            let pointer = ((operand + e1.cpu.x) % 256) as u8;
            bus_read16_zeropage(e1, pointer)
        }
        Mode::IndirectY => {
            let (e1, operand) = read_next8_spec(e);
            let (e2, base) = bus_read16_zeropage(e1, operand);
            let effective = ((base + e2.cpu.y) % 0x10000) as u16;
            (
                EmuV {
                    cpu: Cpu { page_crossed: pages_differ(base, effective), ..e2.cpu },
                    ..e2
                },
                effective,
            )
        }
    }
}

/// The operand an addressing mode reads: the effective address followed
/// by the read at it.
pub open spec fn mode_operand(e: EmuV, mode: Mode) -> (EmuV, u8) {
    let (e1, address) = mode_address(e, mode);
    bus_read(e1, address)
}

fn read_next8(emulator: &mut Emulator) -> (value: u8)
    requires
        old(emulator)@.wf(),
    ensures
        final(emulator)@ == read_next8_spec(old(emulator)@).0,
        value == read_next8_spec(old(emulator)@).1,
        final(emulator)@.wf(),
{
    let pc = emulator.cpu.pc;
    let value = bus::read8(emulator, pc);
    emulator.cpu.pc = ((pc as u32 + 1) % 0x10000) as u16;
    value
}

fn read_next16(emulator: &mut Emulator) -> (value: u16)
    requires
        old(emulator)@.wf(),
    ensures
        final(emulator)@ == read_next16_spec(old(emulator)@).0,
        value == read_next16_spec(old(emulator)@).1,
        final(emulator)@.wf(),
{
    let pc = emulator.cpu.pc;
    let value = bus::read16(emulator, pc);
    emulator.cpu.pc = ((pc as u32 + 2) % 0x10000) as u16;
    value
}

fn get_address(emulator: &mut Emulator, mode: Mode) -> (address: u16)
    requires
        old(emulator)@.wf(),
    ensures
        final(emulator)@ == mode_address(old(emulator)@, mode).0,
        address == mode_address(old(emulator)@, mode).1,
        final(emulator)@.wf(),
        final(emulator)@.cpu.branch_taken == old(emulator)@.cpu.branch_taken,
{
    match mode {
        Mode::Immediate => {
            let address = emulator.cpu.pc;
            emulator.cpu.pc = ((address as u32 + 1) % 0x10000) as u16;
            address
        }
        Mode::ZeroPage => read_next8(emulator) as u16,
        Mode::ZeroPageX => {
            let operand = read_next8(emulator);
            ((operand as u16 + emulator.cpu.x as u16) % 256) as u16
        }
        Mode::ZeroPageY => {
            let operand = read_next8(emulator);
            ((operand as u16 + emulator.cpu.y as u16) % 256) as u16
        }
        Mode::Absolute => read_next16(emulator),
        Mode::AbsoluteX => {
            let base = read_next16(emulator);
            let effective = ((base as u32 + emulator.cpu.x as u32) % 0x10000) as u16;
            emulator.cpu.page_crossed = (base & 0xff00) != (effective & 0xff00);
            effective
        }
        Mode::AbsoluteY => {
            let base = read_next16(emulator);
            let effective = ((base as u32 + emulator.cpu.y as u32) % 0x10000) as u16;
            emulator.cpu.page_crossed = (base & 0xff00) != (effective & 0xff00);
            effective
        }
        Mode::IndirectX => {
            let operand = read_next8(emulator);
            let pointer = ((operand as u16 + emulator.cpu.x as u16) % 256) as u8;
            bus::read16_zeropage(emulator, pointer)
        }
        Mode::IndirectY => {
            let operand = read_next8(emulator);
            let base = bus::read16_zeropage(emulator, operand);
            let effective = ((base as u32 + emulator.cpu.y as u32) % 0x10000) as u16;
            emulator.cpu.page_crossed = (base & 0xff00) != (effective & 0xff00);
            effective
        }
    }
}

fn get_operand(emulator: &mut Emulator, mode: Mode) -> (value: u8)
    requires
        old(emulator)@.wf(),
    ensures
        final(emulator)@ == mode_operand(old(emulator)@, mode).0,
        value == mode_operand(old(emulator)@, mode).1,
        final(emulator)@.wf(),
{
    let address = get_address(emulator, mode);
    bus::read8(emulator, address)
}

// ------------------------------------------------------------ the stack ---

/// Push a byte: store at 0x0100 + S, then decrement S (wrapping inside
/// the stack page).
pub open spec fn push8_spec(e: EmuV, value: u8) -> EmuV {
    let e1 = bus_write(e, (0x100 + e.cpu.s) as u16, value);
    EmuV { cpu: Cpu { s: ((e.cpu.s + 255) % 256) as u8, ..e1.cpu }, ..e1 }
}

/// Pull a byte: increment S (wrapping), then read at 0x0100 + S.
pub open spec fn pull8_spec(e: EmuV) -> (EmuV, u8) {
    let s = ((e.cpu.s + 1) % 256) as u8;
    let e1 = EmuV { cpu: Cpu { s: s, ..e.cpu }, ..e };
    bus_read(e1, (0x100 + s) as u16)
}

/// Push a word, high byte first.
pub open spec fn push16_spec(e: EmuV, value: u16) -> EmuV {
    push8_spec(push8_spec(e, (value / 256) as u8), (value % 256) as u8)
}

/// Pull a word, low byte first.
pub open spec fn pull16_spec(e: EmuV) -> (EmuV, u16) {
    let (e1, low) = pull8_spec(e);
    let (e2, high) = pull8_spec(e1);
    (e2, (high * 256 + low) as u16)
}

pub fn push8(emulator: &mut Emulator, value: u8)
    requires
        old(emulator)@.wf(),
    ensures
        final(emulator)@ == push8_spec(old(emulator)@, value),
        final(emulator)@.wf(),
        final(emulator)@.cpu.branch_taken == old(emulator)@.cpu.branch_taken,
{
    let address = STACK_ADDRESS + emulator.cpu.s as u16;
    bus::write(emulator, address, value);
    emulator.cpu.s = ((emulator.cpu.s as u16 + 255) % 256) as u8;
}

pub fn pull8(emulator: &mut Emulator) -> (value: u8)
    requires
        old(emulator)@.wf(),
    ensures
        final(emulator)@ == pull8_spec(old(emulator)@).0,
        value == pull8_spec(old(emulator)@).1,
        final(emulator)@.wf(),
        final(emulator)@.cpu.branch_taken == old(emulator)@.cpu.branch_taken,
{
    emulator.cpu.s = ((emulator.cpu.s as u16 + 1) % 256) as u8;
    let address = STACK_ADDRESS + emulator.cpu.s as u16;
    bus::read8(emulator, address)
}

pub fn push16(emulator: &mut Emulator, value: u16)
    requires
        old(emulator)@.wf(),
    ensures
        final(emulator)@ == push16_spec(old(emulator)@, value),
        final(emulator)@.wf(),
        final(emulator)@.cpu.branch_taken == old(emulator)@.cpu.branch_taken,
{
    push8(emulator, (value / 256) as u8);
    push8(emulator, (value % 256) as u8);
}

pub fn pull16(emulator: &mut Emulator) -> (value: u16)
    requires
        old(emulator)@.wf(),
    ensures
        final(emulator)@ == pull16_spec(old(emulator)@).0,
        value == pull16_spec(old(emulator)@).1,
        final(emulator)@.wf(),
        final(emulator)@.cpu.branch_taken == old(emulator)@.cpu.branch_taken,
{
    let low = pull8(emulator) as u16;
    let high = pull8(emulator) as u16;
    high * 256 + low
}

// ------------------------------------------------------- instructions ---
//
// Each instruction has a spec transition on the machine view and an
// executable body proved equal to it. The `_at` forms act on an already
// computed effective address; the mode-taking forms resolve the address
// first.

pub open spec fn lda_spec(e: EmuV, mode: Mode) -> EmuV {
    let (e1, value) = mode_operand(e, mode);
    EmuV { cpu: Cpu { a: value, p: nz_written(e1.cpu.p, value), ..e1.cpu }, ..e1 }
}

fn lda(emulator: &mut Emulator, mode: Mode)
    requires
        old(emulator)@.wf(),
    ensures
        final(emulator)@ == lda_spec(old(emulator)@, mode),
        final(emulator)@.wf(),
        final(emulator)@.cpu.branch_taken == old(emulator)@.cpu.branch_taken,
{
    let value = get_operand(emulator, mode);
    emulator.cpu.a = value;
    emulator.cpu.set_nz_flags(value);
}

pub open spec fn ldx_spec(e: EmuV, mode: Mode) -> EmuV {
    let (e1, value) = mode_operand(e, mode);
    EmuV { cpu: Cpu { x: value, p: nz_written(e1.cpu.p, value), ..e1.cpu }, ..e1 }
}

fn ldx(emulator: &mut Emulator, mode: Mode)
    requires
        old(emulator)@.wf(),
    ensures
        final(emulator)@ == ldx_spec(old(emulator)@, mode),
        final(emulator)@.wf(),
        final(emulator)@.cpu.branch_taken == old(emulator)@.cpu.branch_taken,
{
    let value = get_operand(emulator, mode);
    emulator.cpu.x = value;
    emulator.cpu.set_nz_flags(value);
}

pub open spec fn ldy_spec(e: EmuV, mode: Mode) -> EmuV {
    let (e1, value) = mode_operand(e, mode);
    EmuV { cpu: Cpu { y: value, p: nz_written(e1.cpu.p, value), ..e1.cpu }, ..e1 }
}

fn ldy(emulator: &mut Emulator, mode: Mode)
    requires
        old(emulator)@.wf(),
    ensures
        final(emulator)@ == ldy_spec(old(emulator)@, mode),
        final(emulator)@.wf(),
        final(emulator)@.cpu.branch_taken == old(emulator)@.cpu.branch_taken,
{
    let value = get_operand(emulator, mode);
    emulator.cpu.y = value;
    emulator.cpu.set_nz_flags(value);
}

pub open spec fn lax_spec(e: EmuV, mode: Mode) -> EmuV {
    let (e1, value) = mode_operand(e, mode);
    EmuV { cpu: Cpu { a: value, x: value, p: nz_written(e1.cpu.p, value), ..e1.cpu }, ..e1 }
}

fn lax(emulator: &mut Emulator, mode: Mode)
    requires
        old(emulator)@.wf(),
    ensures
        final(emulator)@ == lax_spec(old(emulator)@, mode),
        final(emulator)@.wf(),
        final(emulator)@.cpu.branch_taken == old(emulator)@.cpu.branch_taken,
{
    let value = get_operand(emulator, mode);
    emulator.cpu.a = value;
    emulator.cpu.x = value;
    emulator.cpu.set_nz_flags(value);
}

pub open spec fn sta_spec(e: EmuV, mode: Mode) -> EmuV {
    let (e1, address) = mode_address(e, mode);
    bus_write(e1, address, e1.cpu.a)
}

fn sta(emulator: &mut Emulator, mode: Mode)
    requires
        old(emulator)@.wf(),
    ensures
        final(emulator)@ == sta_spec(old(emulator)@, mode),
        final(emulator)@.wf(),
        final(emulator)@.cpu.branch_taken == old(emulator)@.cpu.branch_taken,
{
    let address = get_address(emulator, mode);
    let value = emulator.cpu.a;
    bus::write(emulator, address, value);
}

pub open spec fn stx_spec(e: EmuV, mode: Mode) -> EmuV {
    let (e1, address) = mode_address(e, mode);
    bus_write(e1, address, e1.cpu.x)
}

fn stx(emulator: &mut Emulator, mode: Mode)
    requires
        old(emulator)@.wf(),
    ensures
        final(emulator)@ == stx_spec(old(emulator)@, mode),
        final(emulator)@.wf(),
        final(emulator)@.cpu.branch_taken == old(emulator)@.cpu.branch_taken,
{
    let address = get_address(emulator, mode);
    let value = emulator.cpu.x;
    bus::write(emulator, address, value);
}

pub open spec fn sty_spec(e: EmuV, mode: Mode) -> EmuV {
    let (e1, address) = mode_address(e, mode);
    bus_write(e1, address, e1.cpu.y)
}

fn sty(emulator: &mut Emulator, mode: Mode)
    requires
        old(emulator)@.wf(),
    ensures
        final(emulator)@ == sty_spec(old(emulator)@, mode),
        final(emulator)@.wf(),
        final(emulator)@.cpu.branch_taken == old(emulator)@.cpu.branch_taken,
{
    let address = get_address(emulator, mode);
    let value = emulator.cpu.y;
    bus::write(emulator, address, value);
}

pub open spec fn sax_spec(e: EmuV, mode: Mode) -> EmuV {
    let (e1, address) = mode_address(e, mode);
    bus_write(e1, address, e1.cpu.a & e1.cpu.x)
}

fn sax(emulator: &mut Emulator, mode: Mode)
    requires
        old(emulator)@.wf(),
    ensures
        final(emulator)@ == sax_spec(old(emulator)@, mode),
        final(emulator)@.wf(),
        final(emulator)@.cpu.branch_taken == old(emulator)@.cpu.branch_taken,
{
    let address = get_address(emulator, mode);
    let value = emulator.cpu.a & emulator.cpu.x;
    bus::write(emulator, address, value);
}

pub open spec fn and_at_spec(e: EmuV, address: u16) -> EmuV {
    let (e1, value) = bus_read(e, address);
    let result = e1.cpu.a & value;
    EmuV { cpu: Cpu { a: result, p: nz_written(e1.cpu.p, result), ..e1.cpu }, ..e1 }
}

fn and_address(emulator: &mut Emulator, address: u16)
    requires
        old(emulator)@.wf(),
    ensures
        final(emulator)@ == and_at_spec(old(emulator)@, address),
        final(emulator)@.wf(),
        final(emulator)@.cpu.branch_taken == old(emulator)@.cpu.branch_taken,
{
    let value = bus::read8(emulator, address);
    let result = emulator.cpu.a & value;
    emulator.cpu.a = result;
    emulator.cpu.set_nz_flags(result);
}

pub open spec fn and_spec(e: EmuV, mode: Mode) -> EmuV {
    let (e1, address) = mode_address(e, mode);
    and_at_spec(e1, address)
}

fn and(emulator: &mut Emulator, mode: Mode)
    requires
        old(emulator)@.wf(),
    ensures
        final(emulator)@ == and_spec(old(emulator)@, mode),
        final(emulator)@.wf(),
        final(emulator)@.cpu.branch_taken == old(emulator)@.cpu.branch_taken,
{
    let address = get_address(emulator, mode);
    and_address(emulator, address);
}

pub open spec fn ora_at_spec(e: EmuV, address: u16) -> EmuV {
    let (e1, value) = bus_read(e, address);
    let result = e1.cpu.a | value;
    EmuV { cpu: Cpu { a: result, p: nz_written(e1.cpu.p, result), ..e1.cpu }, ..e1 }
}

fn ora_address(emulator: &mut Emulator, address: u16)
    requires
        old(emulator)@.wf(),
    ensures
        final(emulator)@ == ora_at_spec(old(emulator)@, address),
        final(emulator)@.wf(),
        final(emulator)@.cpu.branch_taken == old(emulator)@.cpu.branch_taken,
{
    let value = bus::read8(emulator, address);
    let result = emulator.cpu.a | value;
    emulator.cpu.a = result;
    emulator.cpu.set_nz_flags(result);
}

pub open spec fn ora_spec(e: EmuV, mode: Mode) -> EmuV {
    let (e1, address) = mode_address(e, mode);
    ora_at_spec(e1, address)
}

fn ora(emulator: &mut Emulator, mode: Mode)
    requires
        old(emulator)@.wf(),
    ensures
        final(emulator)@ == ora_spec(old(emulator)@, mode),
        final(emulator)@.wf(),
        final(emulator)@.cpu.branch_taken == old(emulator)@.cpu.branch_taken,
{
    let address = get_address(emulator, mode);
    ora_address(emulator, address);
}

pub open spec fn eor_at_spec(e: EmuV, address: u16) -> EmuV {
    let (e1, value) = bus_read(e, address);
    let result = e1.cpu.a ^ value;
    EmuV { cpu: Cpu { a: result, p: nz_written(e1.cpu.p, result), ..e1.cpu }, ..e1 }
}

fn eor_address(emulator: &mut Emulator, address: u16)
    requires
        old(emulator)@.wf(),
    ensures
        final(emulator)@ == eor_at_spec(old(emulator)@, address),
        final(emulator)@.wf(),
        final(emulator)@.cpu.branch_taken == old(emulator)@.cpu.branch_taken,
{
    let value = bus::read8(emulator, address);
    let result = emulator.cpu.a ^ value;
    emulator.cpu.a = result;
    emulator.cpu.set_nz_flags(result);
}

pub open spec fn eor_spec(e: EmuV, mode: Mode) -> EmuV {
    let (e1, address) = mode_address(e, mode);
    eor_at_spec(e1, address)
}

fn eor(emulator: &mut Emulator, mode: Mode)
    requires
        old(emulator)@.wf(),
    ensures
        final(emulator)@ == eor_spec(old(emulator)@, mode),
        final(emulator)@.wf(),
        final(emulator)@.cpu.branch_taken == old(emulator)@.cpu.branch_taken,
{
    let address = get_address(emulator, mode);
    eor_address(emulator, address);
}

/// BIT: Z from the masked accumulator, N from bit 7 of the operand, V
/// from bit 6 of the operand.
pub open spec fn bit_spec(e: EmuV, mode: Mode) -> EmuV {
    let (e1, value) = mode_operand(e, mode);
    let p1 = flag_written(e1.cpu.p, FLAG_Z, value & e1.cpu.a == 0);
    let p2 = flag_written(p1, FLAG_N, value >= 0x80);
    let p3 = flag_written(p2, FLAG_V, (value >> 6) & 1 == 1);
    EmuV { cpu: Cpu { p: p3, ..e1.cpu }, ..e1 }
}

#[verifier::rlimit(100)]
fn bit(emulator: &mut Emulator, mode: Mode)
    requires
        old(emulator)@.wf(),
    ensures
        final(emulator)@ == bit_spec(old(emulator)@, mode),
        final(emulator)@.wf(),
        final(emulator)@.cpu.branch_taken == old(emulator)@.cpu.branch_taken,
{
    let value = get_operand(emulator, mode);
    let masked = value & emulator.cpu.a;
    emulator.cpu.set_flag(FLAG_Z, masked == 0);
    emulator.cpu.set_flag(FLAG_N, value >= 0x80);
    emulator.cpu.set_flag(FLAG_V, ((value >> 6) & 1) == 1);
}

pub open spec fn lsr_at_spec(e: EmuV, address: u16) -> EmuV {
    let (e1, value) = bus_read(e, address);
    let e2 = EmuV { cpu: Cpu { p: lsr_spec(e1.cpu.p, value).0, ..e1.cpu }, ..e1 };
    bus_write(e2, address, lsr_spec(e1.cpu.p, value).1)
}

fn lsr_address(emulator: &mut Emulator, address: u16)
    requires
        old(emulator)@.wf(),
    ensures
        final(emulator)@ == lsr_at_spec(old(emulator)@, address),
        final(emulator)@.wf(),
        final(emulator)@.cpu.branch_taken == old(emulator)@.cpu.branch_taken,
{
    let value = bus::read8(emulator, address);
    let result = emulator.cpu.lsr_value(value);
    bus::write(emulator, address, result);
}

pub open spec fn asl_at_spec(e: EmuV, address: u16) -> EmuV {
    let (e1, value) = bus_read(e, address);
    let e2 = EmuV { cpu: Cpu { p: asl_spec(e1.cpu.p, value).0, ..e1.cpu }, ..e1 };
    bus_write(e2, address, asl_spec(e1.cpu.p, value).1)
}

fn asl_address(emulator: &mut Emulator, address: u16)
    requires
        old(emulator)@.wf(),
    ensures
        final(emulator)@ == asl_at_spec(old(emulator)@, address),
        final(emulator)@.wf(),
        final(emulator)@.cpu.branch_taken == old(emulator)@.cpu.branch_taken,
{
    let value = bus::read8(emulator, address);
    let result = emulator.cpu.asl_value(value);
    bus::write(emulator, address, result);
}

pub open spec fn ror_at_spec(e: EmuV, address: u16) -> EmuV {
    let (e1, value) = bus_read(e, address);
    let e2 = EmuV { cpu: Cpu { p: ror_spec(e1.cpu.p, value).0, ..e1.cpu }, ..e1 };
    bus_write(e2, address, ror_spec(e1.cpu.p, value).1)
}

fn ror_address(emulator: &mut Emulator, address: u16)
    requires
        old(emulator)@.wf(),
    ensures
        final(emulator)@ == ror_at_spec(old(emulator)@, address),
        final(emulator)@.wf(),
        final(emulator)@.cpu.branch_taken == old(emulator)@.cpu.branch_taken,
{
    let value = bus::read8(emulator, address);
    let result = emulator.cpu.ror_value(value);
    bus::write(emulator, address, result);
}

pub open spec fn rol_at_spec(e: EmuV, address: u16) -> EmuV {
    let (e1, value) = bus_read(e, address);
    let e2 = EmuV { cpu: Cpu { p: rol_spec(e1.cpu.p, value).0, ..e1.cpu }, ..e1 };
    bus_write(e2, address, rol_spec(e1.cpu.p, value).1)
}

fn rol_address(emulator: &mut Emulator, address: u16)
    requires
        old(emulator)@.wf(),
    ensures
        final(emulator)@ == rol_at_spec(old(emulator)@, address),
        final(emulator)@.wf(),
        final(emulator)@.cpu.branch_taken == old(emulator)@.cpu.branch_taken,
{
    let value = bus::read8(emulator, address);
    let result = emulator.cpu.rol_value(value);
    bus::write(emulator, address, result);
}

pub open spec fn inc_at_spec(e: EmuV, address: u16) -> EmuV {
    let (e1, value) = bus_read(e, address);
    let e2 = EmuV { cpu: Cpu { p: inc_spec(e1.cpu.p, value).0, ..e1.cpu }, ..e1 };
    bus_write(e2, address, inc_spec(e1.cpu.p, value).1)
}

fn inc_address(emulator: &mut Emulator, address: u16)
    requires
        old(emulator)@.wf(),
    ensures
        final(emulator)@ == inc_at_spec(old(emulator)@, address),
        final(emulator)@.wf(),
        final(emulator)@.cpu.branch_taken == old(emulator)@.cpu.branch_taken,
{
    let value = bus::read8(emulator, address);
    let result = emulator.cpu.inc_value(value);
    bus::write(emulator, address, result);
}

pub open spec fn dec_at_spec(e: EmuV, address: u16) -> EmuV {
    let (e1, value) = bus_read(e, address);
    let e2 = EmuV { cpu: Cpu { p: dec_spec(e1.cpu.p, value).0, ..e1.cpu }, ..e1 };
    bus_write(e2, address, dec_spec(e1.cpu.p, value).1)
}

fn dec_address(emulator: &mut Emulator, address: u16)
    requires
        old(emulator)@.wf(),
    ensures
        final(emulator)@ == dec_at_spec(old(emulator)@, address),
        final(emulator)@.wf(),
        final(emulator)@.cpu.branch_taken == old(emulator)@.cpu.branch_taken,
{
    let value = bus::read8(emulator, address);
    let result = emulator.cpu.dec_value(value);
    bus::write(emulator, address, result);
}

pub open spec fn adc_at_spec(e: EmuV, address: u16) -> EmuV {
    let (e1, value) = bus_read(e, address);
    EmuV {
        cpu: Cpu {
            p: adc_spec(e1.cpu.p, e1.cpu.a, value).0,
            a: adc_spec(e1.cpu.p, e1.cpu.a, value).1,
            ..e1.cpu
        },
        ..e1
    }
}

fn adc_address(emulator: &mut Emulator, address: u16)
    requires
        old(emulator)@.wf(),
    ensures
        final(emulator)@ == adc_at_spec(old(emulator)@, address),
        final(emulator)@.wf(),
        final(emulator)@.cpu.branch_taken == old(emulator)@.cpu.branch_taken,
{
    let value = bus::read8(emulator, address);
    emulator.cpu.adc_value(value);
}

pub open spec fn adc_mode_spec(e: EmuV, mode: Mode) -> EmuV {
    let (e1, address) = mode_address(e, mode);
    adc_at_spec(e1, address)
}

fn adc(emulator: &mut Emulator, mode: Mode)
    requires
        old(emulator)@.wf(),
    ensures
        final(emulator)@ == adc_mode_spec(old(emulator)@, mode),
        final(emulator)@.wf(),
        final(emulator)@.cpu.branch_taken == old(emulator)@.cpu.branch_taken,
{
    let address = get_address(emulator, mode);
    adc_address(emulator, address);
}

/// SBC is ADC of the operand's complement; the decimal flag is ignored.
pub open spec fn sbc_at_spec(e: EmuV, address: u16) -> EmuV {
    let (e1, value) = bus_read(e, address);
    EmuV {
        cpu: Cpu {
            p: adc_spec(e1.cpu.p, e1.cpu.a, !value).0,
            a: adc_spec(e1.cpu.p, e1.cpu.a, !value).1,
            ..e1.cpu
        },
        ..e1
    }
}

fn sbc_address(emulator: &mut Emulator, address: u16)
    requires
        old(emulator)@.wf(),
    ensures
        final(emulator)@ == sbc_at_spec(old(emulator)@, address),
        final(emulator)@.wf(),
        final(emulator)@.cpu.branch_taken == old(emulator)@.cpu.branch_taken,
{
    let value = bus::read8(emulator, address);
    emulator.cpu.adc_value(!value);
}

pub open spec fn sbc_mode_spec(e: EmuV, mode: Mode) -> EmuV {
    let (e1, address) = mode_address(e, mode);
    sbc_at_spec(e1, address)
}

fn sbc(emulator: &mut Emulator, mode: Mode)
    requires
        old(emulator)@.wf(),
    ensures
        final(emulator)@ == sbc_mode_spec(old(emulator)@, mode),
        final(emulator)@.wf(),
        final(emulator)@.cpu.branch_taken == old(emulator)@.cpu.branch_taken,
{
    let address = get_address(emulator, mode);
    sbc_address(emulator, address);
}

pub open spec fn cmp_at_spec(e: EmuV, address: u16) -> EmuV {
    let (e1, value) = bus_read(e, address);
    EmuV { cpu: Cpu { p: compare_spec(e1.cpu.p, e1.cpu.a, value), ..e1.cpu }, ..e1 }
}

fn cmp_address(emulator: &mut Emulator, address: u16)
    requires
        old(emulator)@.wf(),
    ensures
        final(emulator)@ == cmp_at_spec(old(emulator)@, address),
        final(emulator)@.wf(),
        final(emulator)@.cpu.branch_taken == old(emulator)@.cpu.branch_taken,
{
    let value = bus::read8(emulator, address);
    emulator.cpu.set_flag(FLAG_C, emulator.cpu.a >= value);
    let result = ((emulator.cpu.a as u16 + 256 - value as u16) % 256) as u8;
    emulator.cpu.set_nz_flags(result);
}

pub open spec fn cmp_spec(e: EmuV, mode: Mode) -> EmuV {
    let (e1, address) = mode_address(e, mode);
    cmp_at_spec(e1, address)
}

fn cmp(emulator: &mut Emulator, mode: Mode)
    requires
        old(emulator)@.wf(),
    ensures
        final(emulator)@ == cmp_spec(old(emulator)@, mode),
        final(emulator)@.wf(),
        final(emulator)@.cpu.branch_taken == old(emulator)@.cpu.branch_taken,
{
    let address = get_address(emulator, mode);
    cmp_address(emulator, address);
}

pub open spec fn cpx_spec(e: EmuV, mode: Mode) -> EmuV {
    let (e1, value) = mode_operand(e, mode);
    EmuV { cpu: Cpu { p: compare_spec(e1.cpu.p, e1.cpu.x, value), ..e1.cpu }, ..e1 }
}

#[verifier::rlimit(100)]
fn cpx(emulator: &mut Emulator, mode: Mode)
    requires
        old(emulator)@.wf(),
    ensures
        final(emulator)@ == cpx_spec(old(emulator)@, mode),
        final(emulator)@.wf(),
        final(emulator)@.cpu.branch_taken == old(emulator)@.cpu.branch_taken,
{
    let value = get_operand(emulator, mode);
    emulator.cpu.set_flag(FLAG_C, emulator.cpu.x >= value);
    let result = ((emulator.cpu.x as u16 + 256 - value as u16) % 256) as u8;
    emulator.cpu.set_nz_flags(result);
}

pub open spec fn cpy_spec(e: EmuV, mode: Mode) -> EmuV {
    let (e1, value) = mode_operand(e, mode);
    EmuV { cpu: Cpu { p: compare_spec(e1.cpu.p, e1.cpu.y, value), ..e1.cpu }, ..e1 }
}

#[verifier::rlimit(100)]
fn cpy(emulator: &mut Emulator, mode: Mode)
    requires
        old(emulator)@.wf(),
    ensures
        final(emulator)@ == cpy_spec(old(emulator)@, mode),
        final(emulator)@.wf(),
        final(emulator)@.cpu.branch_taken == old(emulator)@.cpu.branch_taken,
{
    let value = get_operand(emulator, mode);
    emulator.cpu.set_flag(FLAG_C, emulator.cpu.y >= value);
    let result = ((emulator.cpu.y as u16 + 256 - value as u16) % 256) as u8;
    emulator.cpu.set_nz_flags(result);
}

// The combined unofficial instructions: a read-modify-write followed by
// an accumulator operation on the same address.

pub open spec fn sre_spec(e: EmuV, mode: Mode) -> EmuV {
    let (e1, address) = mode_address(e, mode);
    eor_at_spec(lsr_at_spec(e1, address), address)
}

fn sre(emulator: &mut Emulator, mode: Mode)
    requires
        old(emulator)@.wf(),
    ensures
        final(emulator)@ == sre_spec(old(emulator)@, mode),
        final(emulator)@.wf(),
        final(emulator)@.cpu.branch_taken == old(emulator)@.cpu.branch_taken,
{
    let address = get_address(emulator, mode);
    lsr_address(emulator, address);
    eor_address(emulator, address);
}

pub open spec fn slo_spec(e: EmuV, mode: Mode) -> EmuV {
    let (e1, address) = mode_address(e, mode);
    ora_at_spec(asl_at_spec(e1, address), address)
}

fn slo(emulator: &mut Emulator, mode: Mode)
    requires
        old(emulator)@.wf(),
    ensures
        final(emulator)@ == slo_spec(old(emulator)@, mode),
        final(emulator)@.wf(),
        final(emulator)@.cpu.branch_taken == old(emulator)@.cpu.branch_taken,
{
    let address = get_address(emulator, mode);
    asl_address(emulator, address);
    ora_address(emulator, address);
}

pub open spec fn rra_spec(e: EmuV, mode: Mode) -> EmuV {
    let (e1, address) = mode_address(e, mode);
    adc_at_spec(ror_at_spec(e1, address), address)
}

fn rra(emulator: &mut Emulator, mode: Mode)
    requires
        old(emulator)@.wf(),
    ensures
        final(emulator)@ == rra_spec(old(emulator)@, mode),
        final(emulator)@.wf(),
        final(emulator)@.cpu.branch_taken == old(emulator)@.cpu.branch_taken,
{
    let address = get_address(emulator, mode);
    ror_address(emulator, address);
    adc_address(emulator, address);
}

pub open spec fn rla_spec(e: EmuV, mode: Mode) -> EmuV {
    let (e1, address) = mode_address(e, mode);
    and_at_spec(rol_at_spec(e1, address), address)
}

fn rla(emulator: &mut Emulator, mode: Mode)
    requires
        old(emulator)@.wf(),
    ensures
        final(emulator)@ == rla_spec(old(emulator)@, mode),
        final(emulator)@.wf(),
        final(emulator)@.cpu.branch_taken == old(emulator)@.cpu.branch_taken,
{
    let address = get_address(emulator, mode);
    rol_address(emulator, address);
    and_address(emulator, address);
}

pub open spec fn isb_spec(e: EmuV, mode: Mode) -> EmuV {
    let (e1, address) = mode_address(e, mode);
    sbc_at_spec(inc_at_spec(e1, address), address)
}

fn isb(emulator: &mut Emulator, mode: Mode)
    requires
        old(emulator)@.wf(),
    ensures
        final(emulator)@ == isb_spec(old(emulator)@, mode),
        final(emulator)@.wf(),
        final(emulator)@.cpu.branch_taken == old(emulator)@.cpu.branch_taken,
{
    let address = get_address(emulator, mode);
    inc_address(emulator, address);
    sbc_address(emulator, address);
}

pub open spec fn dcp_spec(e: EmuV, mode: Mode) -> EmuV {
    let (e1, address) = mode_address(e, mode);
    cmp_at_spec(dec_at_spec(e1, address), address)
}

fn dcp(emulator: &mut Emulator, mode: Mode)
    requires
        old(emulator)@.wf(),
    ensures
        final(emulator)@ == dcp_spec(old(emulator)@, mode),
        final(emulator)@.wf(),
        final(emulator)@.cpu.branch_taken == old(emulator)@.cpu.branch_taken,
{
    let address = get_address(emulator, mode);
    dec_address(emulator, address);
    cmp_address(emulator, address);
}

// ------------------------------------------- branches and interrupts ---

/// A conditional branch: the offset byte is always consumed; when the
/// flag matches the expectation the sign-extended offset is added to PC,
/// the branch is recorded as taken, and a page crossing is noted.
pub open spec fn branch_spec(e: EmuV, flag: u8, expected: bool) -> EmuV {
    let (e1, offset) = read_next8_spec(e);
    if flag_value(e1.cpu.p, flag) == expected {
        let pc = e1.cpu.pc;
        let extended: int = if offset >= 0x80 { offset + 0xff00 } else { offset as int };
        let target = ((pc + extended) % 0x10000) as u16;
        EmuV {
            cpu: Cpu {
                pc: target,
                page_crossed: pages_differ(pc, target),
                branch_taken: true,
                ..e1.cpu
            },
            ..e1
        }
    } else {
        e1
    }
}

fn branch(emulator: &mut Emulator, flag: u8, expected: bool)
    requires
        old(emulator)@.wf(),
    ensures
        final(emulator)@ == branch_spec(old(emulator)@, flag, expected),
        final(emulator)@.wf(),
{
    let offset = read_next8(emulator);
    if emulator.cpu.get_flag(flag) == expected {
        let pc = emulator.cpu.pc;
        let extended: u16 = if offset >= 0x80 { offset as u16 + 0xff00 } else { offset as u16 };
        let target = ((pc as u32 + extended as u32) % 0x10000) as u16;
        emulator.cpu.pc = target;
        emulator.cpu.page_crossed = (pc & 0xff00) != (target & 0xff00);
        emulator.cpu.branch_taken = true;
    }
}

/// Service an interrupt: push PC and P, jump through the vector, set the
/// interrupt-disable flag and clear the pending slot.
pub open spec fn perform_interrupt_spec(e: EmuV, vector: u16) -> EmuV {
    let e1 = push16_spec(e, e.cpu.pc);
    let e2 = push8_spec(e1, e1.cpu.p);
    let (e3, target) = bus_read16(e2, vector);
    EmuV {
        cpu: Cpu {
            pc: target,
            p: flag_written(e3.cpu.p, FLAG_I, true),
            pending_interrupt: None,
            ..e3.cpu
        },
        ..e3
    }
}

fn perform_interrupt(emulator: &mut Emulator, vector: u16)
    requires
        old(emulator)@.wf(),
    ensures
        final(emulator)@ == perform_interrupt_spec(old(emulator)@, vector),
        final(emulator)@.wf(),
        final(emulator)@.cpu.branch_taken == old(emulator)@.cpu.branch_taken,
{
    let pc = emulator.cpu.pc;
    push16(emulator, pc);
    let p = emulator.cpu.p;
    push8(emulator, p);
    let target = bus::read16(emulator, vector);
    emulator.cpu.pc = target;
    emulator.cpu.set_flag(FLAG_I, true);
    emulator.cpu.pending_interrupt = None;
}

/// PLP and RTI restore the status byte with bit 5 forced on and the
/// break bit cleared.
pub open spec fn restored_status(value: u8) -> u8 {
    (value | 0x20) & !FLAG_B
}

pub open spec fn plp_spec(e: EmuV) -> EmuV {
    let (e1, value) = pull8_spec(e);
    EmuV { cpu: Cpu { p: restored_status(value), ..e1.cpu }, ..e1 }
}

fn plp(emulator: &mut Emulator)
    requires
        old(emulator)@.wf(),
    ensures
        final(emulator)@ == plp_spec(old(emulator)@),
        final(emulator)@.wf(),
        final(emulator)@.cpu.branch_taken == old(emulator)@.cpu.branch_taken,
{
    let value = pull8(emulator);
    emulator.cpu.p = (value | 0x20) & !FLAG_B;
}

/// BRK pushes the address after the padding byte and the status with
/// bits 4 and 5 set, then jumps through the IRQ vector with interrupts
/// disabled.
pub open spec fn brk_spec(e: EmuV) -> EmuV {
    let e1 = push16_spec(e, ((e.cpu.pc + 1) % 0x10000) as u16);
    let e2 = push8_spec(e1, e1.cpu.p | 0x30);
    let (e3, target) = bus_read16(e2, IRQ_VECTOR_ADDRESS);
    EmuV { cpu: Cpu { pc: target, p: flag_written(e3.cpu.p, FLAG_I, true), ..e3.cpu }, ..e3 }
}

fn brk(emulator: &mut Emulator)
    requires
        old(emulator)@.wf(),
    ensures
        final(emulator)@ == brk_spec(old(emulator)@),
        final(emulator)@.wf(),
        final(emulator)@.cpu.branch_taken == old(emulator)@.cpu.branch_taken,
{
    let address = ((emulator.cpu.pc as u32 + 1) % 0x10000) as u16;
    push16(emulator, address);
    let pushed = emulator.cpu.p | 0x30;
    push8(emulator, pushed);
    let target = bus::read16(emulator, IRQ_VECTOR_ADDRESS);
    emulator.cpu.pc = target;
    emulator.cpu.set_flag(FLAG_I, true);
}

/// JSR pushes the address of its last operand byte, then jumps.
pub open spec fn jsr_spec(e: EmuV) -> EmuV {
    let e1 = push16_spec(e, ((e.cpu.pc + 1) % 0x10000) as u16);
    let (e2, target) = bus_read16(e1, e1.cpu.pc);
    EmuV { cpu: Cpu { pc: target, ..e2.cpu }, ..e2 }
}

fn jsr(emulator: &mut Emulator)
    requires
        old(emulator)@.wf(),
    ensures
        final(emulator)@ == jsr_spec(old(emulator)@),
        final(emulator)@.wf(),
        final(emulator)@.cpu.branch_taken == old(emulator)@.cpu.branch_taken,
{
    let address = ((emulator.cpu.pc as u32 + 1) % 0x10000) as u16;
    push16(emulator, address);
    let pc = emulator.cpu.pc;
    let target = bus::read16(emulator, pc);
    emulator.cpu.pc = target;
}

/// RTS returns to one past the pulled address.
pub open spec fn rts_spec(e: EmuV) -> EmuV {
    let (e1, value) = pull16_spec(e);
    EmuV { cpu: Cpu { pc: ((value + 1) % 0x10000) as u16, ..e1.cpu }, ..e1 }
}

fn rts(emulator: &mut Emulator)
    requires
        old(emulator)@.wf(),
    ensures
        final(emulator)@ == rts_spec(old(emulator)@),
        final(emulator)@.wf(),
        final(emulator)@.cpu.branch_taken == old(emulator)@.cpu.branch_taken,
{
    let value = pull16(emulator);
    emulator.cpu.pc = ((value as u32 + 1) % 0x10000) as u16;
}

/// RTI restores the status byte, then the program counter.
pub open spec fn rti_spec(e: EmuV) -> EmuV {
    let e1 = plp_spec(e);
    let (e2, value) = pull16_spec(e1);
    EmuV { cpu: Cpu { pc: value, ..e2.cpu }, ..e2 }
}

fn rti(emulator: &mut Emulator)
    requires
        old(emulator)@.wf(),
    ensures
        final(emulator)@ == rti_spec(old(emulator)@),
        final(emulator)@.wf(),
        final(emulator)@.cpu.branch_taken == old(emulator)@.cpu.branch_taken,
{
    plp(emulator);
    let value = pull16(emulator);
    emulator.cpu.pc = value;
}

pub open spec fn jmp_absolute_spec(e: EmuV) -> EmuV {
    let (e1, target) = bus_read16(e, e.cpu.pc);
    EmuV { cpu: Cpu { pc: target, ..e1.cpu }, ..e1 }
}

fn jmp_absolute(emulator: &mut Emulator)
    requires
        old(emulator)@.wf(),
    ensures
        final(emulator)@ == jmp_absolute_spec(old(emulator)@),
        final(emulator)@.wf(),
        final(emulator)@.cpu.branch_taken == old(emulator)@.cpu.branch_taken,
{
    let pc = emulator.cpu.pc;
    let target = bus::read16(emulator, pc);
    emulator.cpu.pc = target;
}

/// The indirect jump reproduces the hardware's page-boundary quirk: when
/// the pointer's low byte is 0xFF, the high byte of the target comes
/// from the start of the same page, not the next one.
pub open spec fn jmp_indirect_spec(e: EmuV) -> EmuV {
    let (e1, pointer) = bus_read16(e, e.cpu.pc);
    let (e2, low) = bus_read(e1, pointer);
    let high_address = ((pointer & 0xff00) | ((((pointer + 1) % 0x10000) as u16) & 0x00ff)) as u16;
    let (e3, high) = bus_read(e2, high_address);
    EmuV { cpu: Cpu { pc: (high * 256 + low) as u16, ..e3.cpu }, ..e3 }
}

#[verifier::rlimit(100)]
fn jmp_indirect(emulator: &mut Emulator)
    requires
        old(emulator)@.wf(),
    ensures
        final(emulator)@ == jmp_indirect_spec(old(emulator)@),
        final(emulator)@.wf(),
        final(emulator)@.cpu.branch_taken == old(emulator)@.cpu.branch_taken,
{
    let pc = emulator.cpu.pc;
    let pointer = bus::read16(emulator, pc);
    let low = bus::read8(emulator, pointer) as u16;
    let high_address = (pointer & 0xff00) | (((pointer as u32 + 1) % 0x10000) as u16 & 0x00ff);
    let high = bus::read8(emulator, high_address) as u16;
    emulator.cpu.pc = high * 256 + low;
}

// ------------------------------------------------- other unofficials ---

/// SXA stores X masked with one more than the high byte of the target;
/// on a page crossing the target's high byte collapses into X.
pub open spec fn sxa_spec(e: EmuV) -> EmuV {
    let (e1, address) = mode_address(e, Mode::AbsoluteY);
    let effective = if e1.cpu.page_crossed {
        (address & ((e1.cpu.x as u16) << 8)) as u16
    } else {
        address
    };
    bus_write(e1, effective, e1.cpu.x & (((address / 256) + 1) % 256) as u8)
}

fn sxa(emulator: &mut Emulator)
    requires
        old(emulator)@.wf(),
    ensures
        final(emulator)@ == sxa_spec(old(emulator)@),
        final(emulator)@.wf(),
        final(emulator)@.cpu.branch_taken == old(emulator)@.cpu.branch_taken,
{
    let address = get_address(emulator, Mode::AbsoluteY);
    let effective = if emulator.cpu.page_crossed {
        address & ((emulator.cpu.x as u16) << 8)
    } else {
        address
    };
    let value = emulator.cpu.x & (((address / 256) + 1) % 256) as u8;
    bus::write(emulator, effective, value);
}

/// SYA is the Y-register counterpart of SXA, indexed by X.
pub open spec fn sya_spec(e: EmuV) -> EmuV {
    let (e1, address) = mode_address(e, Mode::AbsoluteX);
    let effective = if e1.cpu.page_crossed {
        (address & ((e1.cpu.y as u16) << 8)) as u16
    } else {
        address
    };
    bus_write(e1, effective, e1.cpu.y & (((address / 256) + 1) % 256) as u8)
}

fn sya(emulator: &mut Emulator)
    requires
        old(emulator)@.wf(),
    ensures
        final(emulator)@ == sya_spec(old(emulator)@),
        final(emulator)@.wf(),
        final(emulator)@.cpu.branch_taken == old(emulator)@.cpu.branch_taken,
{
    let address = get_address(emulator, Mode::AbsoluteX);
    let effective = if emulator.cpu.page_crossed {
        address & ((emulator.cpu.y as u16) << 8)
    } else {
        address
    };
    let value = emulator.cpu.y & (((address / 256) + 1) % 256) as u8;
    bus::write(emulator, effective, value);
}

/// AAC ands the immediate into the accumulator and copies N into C.
pub open spec fn aac_spec(e: EmuV) -> EmuV {
    let e1 = and_spec(e, Mode::Immediate);
    EmuV {
        cpu: Cpu {
            p: flag_written(e1.cpu.p, FLAG_C, flag_value(e1.cpu.p, FLAG_N)),
            ..e1.cpu
        },
        ..e1
    }
}

fn aac(emulator: &mut Emulator)
    requires
        old(emulator)@.wf(),
    ensures
        final(emulator)@ == aac_spec(old(emulator)@),
        final(emulator)@.wf(),
        final(emulator)@.cpu.branch_taken == old(emulator)@.cpu.branch_taken,
{
    and(emulator, Mode::Immediate);
    let n = emulator.cpu.get_flag(FLAG_N);
    emulator.cpu.set_flag(FLAG_C, n);
}

/// ASR ands the immediate into the accumulator, then shifts it right.
pub open spec fn asr_spec(e: EmuV) -> EmuV {
    let e1 = and_spec(e, Mode::Immediate);
    EmuV {
        cpu: Cpu {
            p: lsr_spec(e1.cpu.p, e1.cpu.a).0,
            a: lsr_spec(e1.cpu.p, e1.cpu.a).1,
            ..e1.cpu
        },
        ..e1
    }
}

fn asr(emulator: &mut Emulator)
    requires
        old(emulator)@.wf(),
    ensures
        final(emulator)@ == asr_spec(old(emulator)@),
        final(emulator)@.wf(),
        final(emulator)@.cpu.branch_taken == old(emulator)@.cpu.branch_taken,
{
    and(emulator, Mode::Immediate);
    let a = emulator.cpu.a;
    let result = emulator.cpu.lsr_value(a);
    emulator.cpu.a = result;
}

/// ARR ands the immediate into the accumulator, rotates it right through
/// carry, and derives C and V from bits 6 and 5 of the result.
pub open spec fn arr_spec(e: EmuV) -> EmuV {
    let (e1, value) = mode_operand(e, Mode::Immediate);
    let masked = e1.cpu.a & value;
    let c: u8 = if flag_value(e1.cpu.p, FLAG_C) { 1 } else { 0 };
    let result = ((c << 7) | (masked >> 1)) as u8;
    let p1 = flag_written(e1.cpu.p, FLAG_C, (result >> 6) & 1 == 1);
    let p2 = flag_written(p1, FLAG_V, ((result >> 6) & 1) ^ ((result >> 5) & 1) == 1);
    EmuV { cpu: Cpu { a: result, p: nz_written(p2, result), ..e1.cpu }, ..e1 }
}

fn arr(emulator: &mut Emulator)
    requires
        old(emulator)@.wf(),
    ensures
        final(emulator)@ == arr_spec(old(emulator)@),
        final(emulator)@.wf(),
        final(emulator)@.cpu.branch_taken == old(emulator)@.cpu.branch_taken,
{
    let value = get_operand(emulator, Mode::Immediate);
    let masked = emulator.cpu.a & value;
    let c: u8 = if emulator.cpu.get_flag(FLAG_C) { 1 } else { 0 };
    let result = (c << 7) | (masked >> 1);
    emulator.cpu.a = result;
    emulator.cpu.set_flag(FLAG_C, ((result >> 6) & 1) == 1);
    emulator.cpu.set_flag(FLAG_V, (((result >> 6) & 1) ^ ((result >> 5) & 1)) == 1);
    emulator.cpu.set_nz_flags(result);
}

/// AXS masks X with A, compares against the immediate and subtracts it.
pub open spec fn axs_spec(e: EmuV) -> EmuV {
    let (e1, value) = mode_operand(e, Mode::Immediate);
    let masked = e1.cpu.x & e1.cpu.a;
    let p1 = flag_written(e1.cpu.p, FLAG_C, masked >= value);
    let result = (((masked + 256) - value) % 256) as u8;
    EmuV { cpu: Cpu { x: result, p: nz_written(p1, result), ..e1.cpu }, ..e1 }
}

fn axs(emulator: &mut Emulator)
    requires
        old(emulator)@.wf(),
    ensures
        final(emulator)@ == axs_spec(old(emulator)@),
        final(emulator)@.wf(),
        final(emulator)@.cpu.branch_taken == old(emulator)@.cpu.branch_taken,
{
    let value = get_operand(emulator, Mode::Immediate);
    let masked = emulator.cpu.x & emulator.cpu.a;
    emulator.cpu.set_flag(FLAG_C, masked >= value);
    let result = ((masked as u16 + 256 - value as u16) % 256) as u8;
    emulator.cpu.x = result;
    emulator.cpu.set_nz_flags(result);
}


pub open spec fn lsr_mode_spec(e: EmuV, mode: Mode) -> EmuV {
    let (e1, address) = mode_address(e, mode);
    lsr_at_spec(e1, address)
}

fn lsr_mem(emulator: &mut Emulator, mode: Mode)
    requires
        old(emulator)@.wf(),
    ensures
        final(emulator)@ == lsr_mode_spec(old(emulator)@, mode),
        final(emulator)@.wf(),
        final(emulator)@.cpu.branch_taken == old(emulator)@.cpu.branch_taken,
{
    let address = get_address(emulator, mode);
    lsr_address(emulator, address);
}

pub open spec fn asl_mode_spec(e: EmuV, mode: Mode) -> EmuV {
    let (e1, address) = mode_address(e, mode);
    asl_at_spec(e1, address)
}

fn asl_mem(emulator: &mut Emulator, mode: Mode)
    requires
        old(emulator)@.wf(),
    ensures
        final(emulator)@ == asl_mode_spec(old(emulator)@, mode),
        final(emulator)@.wf(),
        final(emulator)@.cpu.branch_taken == old(emulator)@.cpu.branch_taken,
{
    let address = get_address(emulator, mode);
    asl_address(emulator, address);
}

pub open spec fn ror_mode_spec(e: EmuV, mode: Mode) -> EmuV {
    let (e1, address) = mode_address(e, mode);
    ror_at_spec(e1, address)
}

fn ror_mem(emulator: &mut Emulator, mode: Mode)
    requires
        old(emulator)@.wf(),
    ensures
        final(emulator)@ == ror_mode_spec(old(emulator)@, mode),
        final(emulator)@.wf(),
        final(emulator)@.cpu.branch_taken == old(emulator)@.cpu.branch_taken,
{
    let address = get_address(emulator, mode);
    ror_address(emulator, address);
}

pub open spec fn rol_mode_spec(e: EmuV, mode: Mode) -> EmuV {
    let (e1, address) = mode_address(e, mode);
    rol_at_spec(e1, address)
}

fn rol_mem(emulator: &mut Emulator, mode: Mode)
    requires
        old(emulator)@.wf(),
    ensures
        final(emulator)@ == rol_mode_spec(old(emulator)@, mode),
        final(emulator)@.wf(),
        final(emulator)@.cpu.branch_taken == old(emulator)@.cpu.branch_taken,
{
    let address = get_address(emulator, mode);
    rol_address(emulator, address);
}

pub open spec fn inc_mode_spec(e: EmuV, mode: Mode) -> EmuV {
    let (e1, address) = mode_address(e, mode);
    inc_at_spec(e1, address)
}

fn inc_mem(emulator: &mut Emulator, mode: Mode)
    requires
        old(emulator)@.wf(),
    ensures
        final(emulator)@ == inc_mode_spec(old(emulator)@, mode),
        final(emulator)@.wf(),
        final(emulator)@.cpu.branch_taken == old(emulator)@.cpu.branch_taken,
{
    let address = get_address(emulator, mode);
    inc_address(emulator, address);
}

pub open spec fn dec_mode_spec(e: EmuV, mode: Mode) -> EmuV {
    let (e1, address) = mode_address(e, mode);
    dec_at_spec(e1, address)
}

fn dec_mem(emulator: &mut Emulator, mode: Mode)
    requires
        old(emulator)@.wf(),
    ensures
        final(emulator)@ == dec_mode_spec(old(emulator)@, mode),
        final(emulator)@.wf(),
        final(emulator)@.cpu.branch_taken == old(emulator)@.cpu.branch_taken,
{
    let address = get_address(emulator, mode);
    dec_address(emulator, address);
}

// --------------------------------------------------- cycle accounting ---

pub open spec fn base_cycles(opcode: u8) -> u8 {
    match opcode {
        0x04 | 0x05 | 0x08 | 0x24 | 0x25 | 0x44 | 0x45 | 0x48 | 0x4c | 0x64 | 0x65 | 0x84 | 0x85 |
            0x86 | 0x87 | 0xa4 | 0xa5 | 0xa6 | 0xa7 | 0xc4 | 0xc5 | 0xe4 | 0xe5 => 3u8,
        0x0c | 0x0d | 0x14 | 0x15 | 0x19 | 0x1c | 0x1d | 0x28 | 0x2c | 0x2d | 0x34 | 0x35 | 0x39 |
            0x3c | 0x3d | 0x4d | 0x54 | 0x55 | 0x59 | 0x5c | 0x5d | 0x68 | 0x6d | 0x74 | 0x75 | 0x79 |
            0x7c | 0x7d | 0x8c | 0x8d | 0x8e | 0x8f | 0x94 | 0x95 | 0x96 | 0x97 | 0xac | 0xad | 0xae |
            0xaf | 0xb4 | 0xb5 | 0xb6 | 0xb7 | 0xb9 | 0xbb | 0xbc | 0xbd | 0xbe | 0xbf | 0xcc | 0xcd |
            0xd4 | 0xd5 | 0xd9 | 0xdc | 0xdd | 0xec | 0xed | 0xf4 | 0xf5 | 0xf9 | 0xfc | 0xfd => 4u8,
        0x06 | 0x07 | 0x11 | 0x26 | 0x27 | 0x31 | 0x46 | 0x47 | 0x51 | 0x66 | 0x67 | 0x6c | 0x71 |
            0x99 | 0x9b | 0x9c | 0x9d | 0x9e | 0x9f | 0xb1 | 0xb3 | 0xc6 | 0xc7 | 0xd1 | 0xe6 | 0xe7 |
            0xf1 => 5u8,
        0x01 | 0x0e | 0x0f | 0x16 | 0x17 | 0x20 | 0x21 | 0x2e | 0x2f | 0x36 | 0x37 | 0x40 | 0x41 |
            0x4e | 0x4f | 0x56 | 0x57 | 0x60 | 0x61 | 0x6e | 0x6f | 0x76 | 0x77 | 0x81 | 0x83 | 0x91 |
            0x93 | 0xa1 | 0xa3 | 0xc1 | 0xce | 0xcf | 0xd6 | 0xd7 | 0xe1 | 0xee | 0xef | 0xf6 | 0xf7 => 6u8,
        0x00 | 0x1b | 0x1e | 0x1f | 0x3b | 0x3e | 0x3f | 0x5b | 0x5e | 0x5f | 0x7b | 0x7e | 0x7f |
            0xdb | 0xde | 0xdf | 0xfb | 0xfe | 0xff => 7u8,
        0x03 | 0x13 | 0x23 | 0x33 | 0x43 | 0x53 | 0x63 | 0x73 | 0xc3 | 0xd3 | 0xe3 | 0xf3 => 8u8,
        _ => 2u8,
    }
}



pub open spec fn page_crossing_cycles(opcode: u8) -> u8 {
    match opcode {
        0x04 | 0x05 | 0x08 | 0x10 | 0x24 | 0x25 | 0x30 | 0x44 | 0x45 | 0x48 | 0x4c | 0x50 | 0x64 |
            0x65 | 0x70 | 0x84 | 0x85 | 0x86 | 0x87 | 0x90 | 0xa4 | 0xa5 | 0xa6 | 0xa7 | 0xb0 | 0xc4 |
            0xc5 | 0xd0 | 0xe4 | 0xe5 | 0xf0 => 3u8,
        0x0c | 0x0d | 0x14 | 0x15 | 0x28 | 0x2c | 0x2d | 0x34 | 0x35 | 0x4d | 0x54 | 0x55 | 0x68 |
            0x6d | 0x74 | 0x75 | 0x8c | 0x8d | 0x8e | 0x8f | 0x94 | 0x95 | 0x96 | 0x97 | 0xac | 0xad |
            0xae | 0xaf | 0xb4 | 0xb5 | 0xb6 | 0xb7 | 0xcc | 0xcd | 0xd4 | 0xd5 | 0xec | 0xed | 0xf4 |
            0xf5 => 4u8,
        0x06 | 0x07 | 0x19 | 0x1c | 0x1d | 0x26 | 0x27 | 0x39 | 0x3c | 0x3d | 0x46 | 0x47 | 0x59 |
            0x5c | 0x5d | 0x66 | 0x67 | 0x6c | 0x79 | 0x7c | 0x7d | 0x99 | 0x9b | 0x9c | 0x9d | 0x9e |
            0x9f | 0xb9 | 0xbb | 0xbc | 0xbd | 0xbe | 0xbf | 0xc6 | 0xc7 | 0xd9 | 0xdc | 0xdd | 0xe6 |
            0xe7 | 0xf9 | 0xfc | 0xfd => 5u8,
        0x01 | 0x0e | 0x0f | 0x11 | 0x16 | 0x17 | 0x20 | 0x21 | 0x2e | 0x2f | 0x31 | 0x36 | 0x37 |
            0x40 | 0x41 | 0x4e | 0x4f | 0x51 | 0x56 | 0x57 | 0x60 | 0x61 | 0x6e | 0x6f | 0x71 | 0x76 |
            0x77 | 0x81 | 0x83 | 0x91 | 0x93 | 0xa1 | 0xa3 | 0xb1 | 0xb3 | 0xc1 | 0xce | 0xcf | 0xd1 |
            0xd6 | 0xd7 | 0xe1 | 0xee | 0xef | 0xf1 | 0xf6 | 0xf7 => 6u8,
        0x00 | 0x1b | 0x1e | 0x1f | 0x3b | 0x3e | 0x3f | 0x5b | 0x5e | 0x5f | 0x7b | 0x7e | 0x7f |
            0xdb | 0xde | 0xdf | 0xfb | 0xfe | 0xff => 7u8,
        0x03 | 0x13 | 0x23 | 0x33 | 0x43 | 0x53 | 0x63 | 0x73 | 0xc3 | 0xd3 | 0xe3 | 0xf3 => 8u8,
        _ => 2u8,
    }
}



fn opcode_cycles(opcode: u8) -> (cycles: (u8, u8))
    ensures
        cycles.0 == base_cycles(opcode),
        cycles.1 == page_crossing_cycles(opcode),
        2 <= cycles.0 <= cycles.1 <= 8,
        is_branch_opcode(opcode) ==> cycles.0 == 2 && cycles.1 == 3,
{
    match opcode {
        0x10 | 0x30 | 0x50 | 0x70 | 0x90 | 0xb0 | 0xd0 | 0xf0 => (2, 3),
        0x04 | 0x05 | 0x08 | 0x24 | 0x25 | 0x44 | 0x45 | 0x48 | 0x4c | 0x64 | 0x65 | 0x84 | 0x85 |
            0x86 | 0x87 | 0xa4 | 0xa5 | 0xa6 | 0xa7 | 0xc4 | 0xc5 | 0xe4 | 0xe5 => (3, 3),
        0x0c | 0x0d | 0x14 | 0x15 | 0x28 | 0x2c | 0x2d | 0x34 | 0x35 | 0x4d | 0x54 | 0x55 | 0x68 |
            0x6d | 0x74 | 0x75 | 0x8c | 0x8d | 0x8e | 0x8f | 0x94 | 0x95 | 0x96 | 0x97 | 0xac | 0xad |
            0xae | 0xaf | 0xb4 | 0xb5 | 0xb6 | 0xb7 | 0xcc | 0xcd | 0xd4 | 0xd5 | 0xec | 0xed | 0xf4 |
            0xf5 => (4, 4),
        0x19 | 0x1c | 0x1d | 0x39 | 0x3c | 0x3d | 0x59 | 0x5c | 0x5d | 0x79 | 0x7c | 0x7d | 0xb9 |
            0xbb | 0xbc | 0xbd | 0xbe | 0xbf | 0xd9 | 0xdc | 0xdd | 0xf9 | 0xfc | 0xfd => (4, 5),
        0x06 | 0x07 | 0x26 | 0x27 | 0x46 | 0x47 | 0x66 | 0x67 | 0x6c | 0x99 | 0x9b | 0x9c | 0x9d |
            0x9e | 0x9f | 0xc6 | 0xc7 | 0xe6 | 0xe7 => (5, 5),
        0x11 | 0x31 | 0x51 | 0x71 | 0xb1 | 0xb3 | 0xd1 | 0xf1 => (5, 6),
        0x01 | 0x0e | 0x0f | 0x16 | 0x17 | 0x20 | 0x21 | 0x2e | 0x2f | 0x36 | 0x37 | 0x40 | 0x41 |
            0x4e | 0x4f | 0x56 | 0x57 | 0x60 | 0x61 | 0x6e | 0x6f | 0x76 | 0x77 | 0x81 | 0x83 | 0x91 |
            0x93 | 0xa1 | 0xa3 | 0xc1 | 0xce | 0xcf | 0xd6 | 0xd7 | 0xe1 | 0xee | 0xef | 0xf6 | 0xf7 => (6, 6),
        0x00 | 0x1b | 0x1e | 0x1f | 0x3b | 0x3e | 0x3f | 0x5b | 0x5e | 0x5f | 0x7b | 0x7e | 0x7f |
            0xdb | 0xde | 0xdf | 0xfb | 0xfe | 0xff => (7, 7),
        0x03 | 0x13 | 0x23 | 0x33 | 0x43 | 0x53 | 0x63 | 0x73 | 0xc3 | 0xd3 | 0xe3 | 0xf3 => (8, 8),
        _ => (2, 2),
    }
}

/// The opcodes the interpreter implements: everything except the halt
/// family and the remaining unassigned encodings.
pub open spec fn instruction_defined(opcode: u8) -> bool {
    match opcode {
        0x02 | 0x12 | 0x22 | 0x32 | 0x42 | 0x52 | 0x62 | 0x72 | 0x8b | 0x92 | 0x93 | 0x9b | 0x9f |
        0xb2 | 0xbb | 0xd2 | 0xf2 => false,
        _ => true,
    }
}

/// The eight conditional-branch opcodes.
pub open spec fn is_branch_opcode(opcode: u8) -> bool {
    match opcode {
        0x10 | 0x30 | 0x50 | 0x70 | 0x90 | 0xb0 | 0xd0 | 0xf0 => true,
        _ => false,
    }
}

pub open spec fn instruction_spec_row_0(e: EmuV, opcode: u8) -> EmuV {
    match opcode {
        0x00 => brk_spec(e),
        0x01 => ora_spec(e, Mode::IndirectX),
        0x03 => slo_spec(e, Mode::IndirectX),
        0x04 => EmuV { cpu: Cpu { pc: ((e.cpu.pc + 1) % 0x10000) as u16, ..e.cpu }, ..e },
        0x05 => ora_spec(e, Mode::ZeroPage),
        0x06 => asl_mode_spec(e, Mode::ZeroPage),
        0x07 => slo_spec(e, Mode::ZeroPage),
        0x08 => push8_spec(e, e.cpu.p | 0x30),
        0x09 => ora_spec(e, Mode::Immediate),
        0x0a => EmuV { cpu: Cpu { p: asl_spec(e.cpu.p, e.cpu.a).0, a: asl_spec(e.cpu.p, e.cpu.a).1, ..e.cpu }, ..e },
        0x0b => aac_spec(e),
        0x0c => EmuV { cpu: Cpu { pc: ((e.cpu.pc + 2) % 0x10000) as u16, ..e.cpu }, ..e },
        0x0d => ora_spec(e, Mode::Absolute),
        0x0e => asl_mode_spec(e, Mode::Absolute),
        0x0f => slo_spec(e, Mode::Absolute),
        _ => e,
    }
}

pub open spec fn instruction_spec_row_1(e: EmuV, opcode: u8) -> EmuV {
    match opcode {
        0x10 => branch_spec(e, FLAG_N, false),
        0x11 => ora_spec(e, Mode::IndirectY),
        0x13 => slo_spec(e, Mode::IndirectY),
        0x14 => EmuV { cpu: Cpu { pc: ((e.cpu.pc + 1) % 0x10000) as u16, ..e.cpu }, ..e },
        0x15 => ora_spec(e, Mode::ZeroPageX),
        0x16 => asl_mode_spec(e, Mode::ZeroPageX),
        0x17 => slo_spec(e, Mode::ZeroPageX),
        0x18 => EmuV { cpu: Cpu { p: flag_written(e.cpu.p, FLAG_C, false), ..e.cpu }, ..e },
        0x19 => ora_spec(e, Mode::AbsoluteY),
        0x1a => e,
        0x1b => slo_spec(e, Mode::AbsoluteY),
        0x1c => mode_address(e, Mode::AbsoluteX).0,
        0x1d => ora_spec(e, Mode::AbsoluteX),
        0x1e => asl_mode_spec(e, Mode::AbsoluteX),
        0x1f => slo_spec(e, Mode::AbsoluteX),
        _ => e,
    }
}

pub open spec fn instruction_spec_row_2(e: EmuV, opcode: u8) -> EmuV {
    match opcode {
        0x20 => jsr_spec(e),
        0x21 => and_spec(e, Mode::IndirectX),
        0x23 => rla_spec(e, Mode::IndirectX),
        0x24 => bit_spec(e, Mode::ZeroPage),
        0x25 => and_spec(e, Mode::ZeroPage),
        0x26 => rol_mode_spec(e, Mode::ZeroPage),
        0x27 => rla_spec(e, Mode::ZeroPage),
        0x28 => plp_spec(e),
        0x29 => and_spec(e, Mode::Immediate),
        0x2a => EmuV { cpu: Cpu { p: rol_spec(e.cpu.p, e.cpu.a).0, a: rol_spec(e.cpu.p, e.cpu.a).1, ..e.cpu }, ..e },
        0x2b => aac_spec(e),
        0x2c => bit_spec(e, Mode::Absolute),
        0x2d => and_spec(e, Mode::Absolute),
        0x2e => rol_mode_spec(e, Mode::Absolute),
        0x2f => rla_spec(e, Mode::Absolute),
        _ => e,
    }
}

pub open spec fn instruction_spec_row_3(e: EmuV, opcode: u8) -> EmuV {
    match opcode {
        0x30 => branch_spec(e, FLAG_N, true),
        0x31 => and_spec(e, Mode::IndirectY),
        0x33 => rla_spec(e, Mode::IndirectY),
        0x34 => EmuV { cpu: Cpu { pc: ((e.cpu.pc + 1) % 0x10000) as u16, ..e.cpu }, ..e },
        0x35 => and_spec(e, Mode::ZeroPageX),
        0x36 => rol_mode_spec(e, Mode::ZeroPageX),
        0x37 => rla_spec(e, Mode::ZeroPageX),
        0x38 => EmuV { cpu: Cpu { p: flag_written(e.cpu.p, FLAG_C, true), ..e.cpu }, ..e },
        0x39 => and_spec(e, Mode::AbsoluteY),
        0x3a => e,
        0x3b => rla_spec(e, Mode::AbsoluteY),
        0x3c => mode_address(e, Mode::AbsoluteX).0,
        0x3d => and_spec(e, Mode::AbsoluteX),
        0x3e => rol_mode_spec(e, Mode::AbsoluteX),
        0x3f => rla_spec(e, Mode::AbsoluteX),
        _ => e,
    }
}

pub open spec fn instruction_spec_row_4(e: EmuV, opcode: u8) -> EmuV {
    match opcode {
        0x40 => rti_spec(e),
        0x41 => eor_spec(e, Mode::IndirectX),
        0x43 => sre_spec(e, Mode::IndirectX),
        0x44 => EmuV { cpu: Cpu { pc: ((e.cpu.pc + 1) % 0x10000) as u16, ..e.cpu }, ..e },
        0x45 => eor_spec(e, Mode::ZeroPage),
        0x46 => lsr_mode_spec(e, Mode::ZeroPage),
        0x47 => sre_spec(e, Mode::ZeroPage),
        0x48 => push8_spec(e, e.cpu.a),
        0x49 => eor_spec(e, Mode::Immediate),
        0x4a => EmuV { cpu: Cpu { p: lsr_spec(e.cpu.p, e.cpu.a).0, a: lsr_spec(e.cpu.p, e.cpu.a).1, ..e.cpu }, ..e },
        0x4b => asr_spec(e),
        0x4c => jmp_absolute_spec(e),
        0x4d => eor_spec(e, Mode::Absolute),
        0x4e => lsr_mode_spec(e, Mode::Absolute),
        0x4f => sre_spec(e, Mode::Absolute),
        _ => e,
    }
}

pub open spec fn instruction_spec_row_5(e: EmuV, opcode: u8) -> EmuV {
    match opcode {
        0x50 => branch_spec(e, FLAG_V, false),
        0x51 => eor_spec(e, Mode::IndirectY),
        0x53 => sre_spec(e, Mode::IndirectY),
        0x54 => EmuV { cpu: Cpu { pc: ((e.cpu.pc + 1) % 0x10000) as u16, ..e.cpu }, ..e },
        0x55 => eor_spec(e, Mode::ZeroPageX),
        0x56 => lsr_mode_spec(e, Mode::ZeroPageX),
        0x57 => sre_spec(e, Mode::ZeroPageX),
        0x58 => EmuV { cpu: Cpu { p: flag_written(e.cpu.p, FLAG_I, false), ..e.cpu }, ..e },
        0x59 => eor_spec(e, Mode::AbsoluteY),
        0x5a => e,
        0x5b => sre_spec(e, Mode::AbsoluteY),
        0x5c => mode_address(e, Mode::AbsoluteX).0,
        0x5d => eor_spec(e, Mode::AbsoluteX),
        0x5e => lsr_mode_spec(e, Mode::AbsoluteX),
        0x5f => sre_spec(e, Mode::AbsoluteX),
        _ => e,
    }
}

pub open spec fn instruction_spec_row_6(e: EmuV, opcode: u8) -> EmuV {
    match opcode {
        0x60 => rts_spec(e),
        0x61 => adc_mode_spec(e, Mode::IndirectX),
        0x63 => rra_spec(e, Mode::IndirectX),
        0x64 => EmuV { cpu: Cpu { pc: ((e.cpu.pc + 1) % 0x10000) as u16, ..e.cpu }, ..e },
        0x65 => adc_mode_spec(e, Mode::ZeroPage),
        0x66 => ror_mode_spec(e, Mode::ZeroPage),
        0x67 => rra_spec(e, Mode::ZeroPage),
        0x68 => { let (e1, value) = pull8_spec(e); EmuV { cpu: Cpu { a: value, p: nz_written(e1.cpu.p, value), ..e1.cpu }, ..e1 } },
        0x69 => adc_mode_spec(e, Mode::Immediate),
        0x6a => EmuV { cpu: Cpu { p: ror_spec(e.cpu.p, e.cpu.a).0, a: ror_spec(e.cpu.p, e.cpu.a).1, ..e.cpu }, ..e },
        0x6b => arr_spec(e),
        0x6c => jmp_indirect_spec(e),
        0x6d => adc_mode_spec(e, Mode::Absolute),
        0x6e => ror_mode_spec(e, Mode::Absolute),
        0x6f => rra_spec(e, Mode::Absolute),
        _ => e,
    }
}

pub open spec fn instruction_spec_row_7(e: EmuV, opcode: u8) -> EmuV {
    match opcode {
        0x70 => branch_spec(e, FLAG_V, true),
        0x71 => adc_mode_spec(e, Mode::IndirectY),
        0x73 => rra_spec(e, Mode::IndirectY),
        0x74 => EmuV { cpu: Cpu { pc: ((e.cpu.pc + 1) % 0x10000) as u16, ..e.cpu }, ..e },
        0x75 => adc_mode_spec(e, Mode::ZeroPageX),
        0x76 => ror_mode_spec(e, Mode::ZeroPageX),
        0x77 => rra_spec(e, Mode::ZeroPageX),
        0x78 => EmuV { cpu: Cpu { p: flag_written(e.cpu.p, FLAG_I, true), ..e.cpu }, ..e },
        0x79 => adc_mode_spec(e, Mode::AbsoluteY),
        0x7a => e,
        0x7b => rra_spec(e, Mode::AbsoluteY),
        0x7c => mode_address(e, Mode::AbsoluteX).0,
        0x7d => adc_mode_spec(e, Mode::AbsoluteX),
        0x7e => ror_mode_spec(e, Mode::AbsoluteX),
        0x7f => rra_spec(e, Mode::AbsoluteX),
        _ => e,
    }
}

pub open spec fn instruction_spec_row_8(e: EmuV, opcode: u8) -> EmuV {
    match opcode {
        0x80 => EmuV { cpu: Cpu { pc: ((e.cpu.pc + 1) % 0x10000) as u16, ..e.cpu }, ..e },
        0x81 => sta_spec(e, Mode::IndirectX),
        0x82 => EmuV { cpu: Cpu { pc: ((e.cpu.pc + 1) % 0x10000) as u16, ..e.cpu }, ..e },
        0x83 => sax_spec(e, Mode::IndirectX),
        0x84 => sty_spec(e, Mode::ZeroPage),
        0x85 => sta_spec(e, Mode::ZeroPage),
        0x86 => stx_spec(e, Mode::ZeroPage),
        0x87 => sax_spec(e, Mode::ZeroPage),
        0x88 => EmuV { cpu: Cpu { p: dec_spec(e.cpu.p, e.cpu.y).0, y: dec_spec(e.cpu.p, e.cpu.y).1, ..e.cpu }, ..e },
        0x89 => EmuV { cpu: Cpu { pc: ((e.cpu.pc + 1) % 0x10000) as u16, ..e.cpu }, ..e },
        0x8a => EmuV { cpu: Cpu { a: e.cpu.x, p: nz_written(e.cpu.p, e.cpu.x), ..e.cpu }, ..e },
        0x8c => sty_spec(e, Mode::Absolute),
        0x8d => sta_spec(e, Mode::Absolute),
        0x8e => stx_spec(e, Mode::Absolute),
        0x8f => sax_spec(e, Mode::Absolute),
        _ => e,
    }
}

pub open spec fn instruction_spec_row_9(e: EmuV, opcode: u8) -> EmuV {
    match opcode {
        0x90 => branch_spec(e, FLAG_C, false),
        0x91 => sta_spec(e, Mode::IndirectY),
        0x94 => sty_spec(e, Mode::ZeroPageX),
        0x95 => sta_spec(e, Mode::ZeroPageX),
        0x96 => stx_spec(e, Mode::ZeroPageY),
        0x97 => sax_spec(e, Mode::ZeroPageY),
        0x98 => EmuV { cpu: Cpu { a: e.cpu.y, p: nz_written(e.cpu.p, e.cpu.y), ..e.cpu }, ..e },
        0x99 => sta_spec(e, Mode::AbsoluteY),
        0x9a => EmuV { cpu: Cpu { s: e.cpu.x, ..e.cpu }, ..e },
        0x9c => sya_spec(e),
        0x9d => sta_spec(e, Mode::AbsoluteX),
        0x9e => sxa_spec(e),
        _ => e,
    }
}

pub open spec fn instruction_spec_row_a(e: EmuV, opcode: u8) -> EmuV {
    match opcode {
        0xa0 => ldy_spec(e, Mode::Immediate),
        0xa1 => lda_spec(e, Mode::IndirectX),
        0xa2 => ldx_spec(e, Mode::Immediate),
        0xa3 => lax_spec(e, Mode::IndirectX),
        0xa4 => ldy_spec(e, Mode::ZeroPage),
        0xa5 => lda_spec(e, Mode::ZeroPage),
        0xa6 => ldx_spec(e, Mode::ZeroPage),
        0xa7 => lax_spec(e, Mode::ZeroPage),
        0xa8 => EmuV { cpu: Cpu { y: e.cpu.a, p: nz_written(e.cpu.p, e.cpu.a), ..e.cpu }, ..e },
        0xa9 => lda_spec(e, Mode::Immediate),
        0xaa => EmuV { cpu: Cpu { x: e.cpu.a, p: nz_written(e.cpu.p, e.cpu.a), ..e.cpu }, ..e },
        0xab => lax_spec(e, Mode::Immediate),
        0xac => ldy_spec(e, Mode::Absolute),
        0xad => lda_spec(e, Mode::Absolute),
        0xae => ldx_spec(e, Mode::Absolute),
        0xaf => lax_spec(e, Mode::Absolute),
        _ => e,
    }
}

pub open spec fn instruction_spec_row_b(e: EmuV, opcode: u8) -> EmuV {
    match opcode {
        0xb0 => branch_spec(e, FLAG_C, true),
        0xb1 => lda_spec(e, Mode::IndirectY),
        0xb3 => lax_spec(e, Mode::IndirectY),
        0xb4 => ldy_spec(e, Mode::ZeroPageX),
        0xb5 => lda_spec(e, Mode::ZeroPageX),
        0xb6 => ldx_spec(e, Mode::ZeroPageY),
        0xb7 => lax_spec(e, Mode::ZeroPageY),
        0xb8 => EmuV { cpu: Cpu { p: flag_written(e.cpu.p, FLAG_V, false), ..e.cpu }, ..e },
        0xb9 => lda_spec(e, Mode::AbsoluteY),
        0xba => EmuV { cpu: Cpu { x: e.cpu.s, p: nz_written(e.cpu.p, e.cpu.s), ..e.cpu }, ..e },
        0xbc => ldy_spec(e, Mode::AbsoluteX),
        0xbd => lda_spec(e, Mode::AbsoluteX),
        0xbe => ldx_spec(e, Mode::AbsoluteY),
        0xbf => lax_spec(e, Mode::AbsoluteY),
        _ => e,
    }
}

pub open spec fn instruction_spec_row_c(e: EmuV, opcode: u8) -> EmuV {
    match opcode {
        0xc0 => cpy_spec(e, Mode::Immediate),
        0xc1 => cmp_spec(e, Mode::IndirectX),
        0xc2 => EmuV { cpu: Cpu { pc: ((e.cpu.pc + 1) % 0x10000) as u16, ..e.cpu }, ..e },
        0xc3 => dcp_spec(e, Mode::IndirectX),
        0xc4 => cpy_spec(e, Mode::ZeroPage),
        0xc5 => cmp_spec(e, Mode::ZeroPage),
        0xc6 => dec_mode_spec(e, Mode::ZeroPage),
        0xc7 => dcp_spec(e, Mode::ZeroPage),
        0xc8 => EmuV { cpu: Cpu { p: inc_spec(e.cpu.p, e.cpu.y).0, y: inc_spec(e.cpu.p, e.cpu.y).1, ..e.cpu }, ..e },
        0xc9 => cmp_spec(e, Mode::Immediate),
        0xca => EmuV { cpu: Cpu { p: dec_spec(e.cpu.p, e.cpu.x).0, x: dec_spec(e.cpu.p, e.cpu.x).1, ..e.cpu }, ..e },
        0xcb => axs_spec(e),
        0xcc => cpy_spec(e, Mode::Absolute),
        0xcd => cmp_spec(e, Mode::Absolute),
        0xce => dec_mode_spec(e, Mode::Absolute),
        0xcf => dcp_spec(e, Mode::Absolute),
        _ => e,
    }
}

pub open spec fn instruction_spec_row_d(e: EmuV, opcode: u8) -> EmuV {
    match opcode {
        0xd0 => branch_spec(e, FLAG_Z, false),
        0xd1 => cmp_spec(e, Mode::IndirectY),
        0xd3 => dcp_spec(e, Mode::IndirectY),
        0xd4 => EmuV { cpu: Cpu { pc: ((e.cpu.pc + 1) % 0x10000) as u16, ..e.cpu }, ..e },
        0xd5 => cmp_spec(e, Mode::ZeroPageX),
        0xd6 => dec_mode_spec(e, Mode::ZeroPageX),
        0xd7 => dcp_spec(e, Mode::ZeroPageX),
        0xd8 => EmuV { cpu: Cpu { p: flag_written(e.cpu.p, FLAG_D, false), ..e.cpu }, ..e },
        0xd9 => cmp_spec(e, Mode::AbsoluteY),
        0xda => e,
        0xdb => dcp_spec(e, Mode::AbsoluteY),
        0xdc => mode_address(e, Mode::AbsoluteX).0,
        0xdd => cmp_spec(e, Mode::AbsoluteX),
        0xde => dec_mode_spec(e, Mode::AbsoluteX),
        0xdf => dcp_spec(e, Mode::AbsoluteX),
        _ => e,
    }
}

pub open spec fn instruction_spec_row_e(e: EmuV, opcode: u8) -> EmuV {
    match opcode {
        0xe0 => cpx_spec(e, Mode::Immediate),
        0xe1 => sbc_mode_spec(e, Mode::IndirectX),
        0xe2 => EmuV { cpu: Cpu { pc: ((e.cpu.pc + 1) % 0x10000) as u16, ..e.cpu }, ..e },
        0xe3 => isb_spec(e, Mode::IndirectX),
        0xe4 => cpx_spec(e, Mode::ZeroPage),
        0xe5 => sbc_mode_spec(e, Mode::ZeroPage),
        0xe6 => inc_mode_spec(e, Mode::ZeroPage),
        0xe7 => isb_spec(e, Mode::ZeroPage),
        0xe8 => EmuV { cpu: Cpu { p: inc_spec(e.cpu.p, e.cpu.x).0, x: inc_spec(e.cpu.p, e.cpu.x).1, ..e.cpu }, ..e },
        0xe9 => sbc_mode_spec(e, Mode::Immediate),
        0xea => e,
        0xeb => sbc_mode_spec(e, Mode::Immediate),
        0xec => cpx_spec(e, Mode::Absolute),
        0xed => sbc_mode_spec(e, Mode::Absolute),
        0xee => inc_mode_spec(e, Mode::Absolute),
        0xef => isb_spec(e, Mode::Absolute),
        _ => e,
    }
}

pub open spec fn instruction_spec_row_f(e: EmuV, opcode: u8) -> EmuV {
    match opcode {
        0xf0 => branch_spec(e, FLAG_Z, true),
        0xf1 => sbc_mode_spec(e, Mode::IndirectY),
        0xf3 => isb_spec(e, Mode::IndirectY),
        0xf4 => EmuV { cpu: Cpu { pc: ((e.cpu.pc + 1) % 0x10000) as u16, ..e.cpu }, ..e },
        0xf5 => sbc_mode_spec(e, Mode::ZeroPageX),
        0xf6 => inc_mode_spec(e, Mode::ZeroPageX),
        0xf7 => isb_spec(e, Mode::ZeroPageX),
        0xf8 => EmuV { cpu: Cpu { p: flag_written(e.cpu.p, FLAG_D, true), ..e.cpu }, ..e },
        0xf9 => sbc_mode_spec(e, Mode::AbsoluteY),
        0xfa => e,
        0xfb => isb_spec(e, Mode::AbsoluteY),
        0xfc => mode_address(e, Mode::AbsoluteX).0,
        0xfd => sbc_mode_spec(e, Mode::AbsoluteX),
        0xfe => inc_mode_spec(e, Mode::AbsoluteX),
        0xff => isb_spec(e, Mode::AbsoluteX),
        _ => e,
    }
}

/// The machine after one defined instruction whose opcode byte has
/// already been fetched, split by the opcode's high nibble. Undefined
/// opcodes leave the machine unchanged (the interpreter halts instead).
pub open spec fn instruction_spec(e: EmuV, opcode: u8) -> EmuV {
    if opcode < 0x10 {
        instruction_spec_row_0(e, opcode)
    } else if opcode < 0x20 {
        instruction_spec_row_1(e, opcode)
    } else if opcode < 0x30 {
        instruction_spec_row_2(e, opcode)
    } else if opcode < 0x40 {
        instruction_spec_row_3(e, opcode)
    } else if opcode < 0x50 {
        instruction_spec_row_4(e, opcode)
    } else if opcode < 0x60 {
        instruction_spec_row_5(e, opcode)
    } else if opcode < 0x70 {
        instruction_spec_row_6(e, opcode)
    } else if opcode < 0x80 {
        instruction_spec_row_7(e, opcode)
    } else if opcode < 0x90 {
        instruction_spec_row_8(e, opcode)
    } else if opcode < 0xa0 {
        instruction_spec_row_9(e, opcode)
    } else if opcode < 0xb0 {
        instruction_spec_row_a(e, opcode)
    } else if opcode < 0xc0 {
        instruction_spec_row_b(e, opcode)
    } else if opcode < 0xd0 {
        instruction_spec_row_c(e, opcode)
    } else if opcode < 0xe0 {
        instruction_spec_row_d(e, opcode)
    } else if opcode < 0xf0 {
        instruction_spec_row_e(e, opcode)
    } else {
        instruction_spec_row_f(e, opcode)
    }
}


/// The machine once a pending interrupt is serviced: a non-maskable
/// interrupt always; a maskable one only while the interrupt-disable
/// flag is clear (otherwise it stays pending).
pub open spec fn interrupt_serviced(e: EmuV) -> EmuV {
    match e.cpu.pending_interrupt {
        Some(Interrupt::Nmi) => perform_interrupt_spec(e, NMI_VECTOR_ADDRESS),
        Some(Interrupt::Irq) => if !flag_value(e.cpu.p, FLAG_I) {
            perform_interrupt_spec(e, IRQ_VECTOR_ADDRESS)
        } else {
            e
        },
        None => e,
    }
}

/// The machine with any interrupt serviced, the opcode byte fetched and
/// the per-instruction bookkeeping flags cleared, and that opcode.
pub open spec fn decoded(e: EmuV) -> (EmuV, u8) {
    let e0 = interrupt_serviced(e);
    let (e1, opcode) = read_next8_spec(e0);
    (EmuV { cpu: Cpu { branch_taken: false, page_crossed: false, ..e1.cpu }, ..e1 }, opcode)
}

/// The cycles an instruction costs: its base count, or the page-crossing
/// count when the access crossed a page, plus one for a taken branch.
pub open spec fn cycle_count(opcode: u8, e: EmuV) -> u8 {
    (((if e.cpu.page_crossed {
        page_crossing_cycles(opcode)
    } else {
        base_cycles(opcode)
    }) + (if e.cpu.branch_taken { 1int } else { 0int })) as u8)
}

/// One whole CPU step: interrupt service, fetch, execute, cycle count.
/// `None` means the machine halted on an undefined or halt opcode.
pub open spec fn step_spec(e: EmuV) -> (EmuV, Option<u8>) {
    let (e1, opcode) = decoded(e);
    if instruction_defined(opcode) {
        let e2 = instruction_spec(e1, opcode);
        (e2, Some(cycle_count(opcode, e2)))
    } else {
        (e1, None)
    }
}

/// Set PC from the reset vector at 0xFFFC/0xFFFD.
pub open spec fn init_pc_spec(e: EmuV) -> EmuV {
    let (e1, value) = bus_read16(e, RESET_VECTOR_ADDRESS);
    EmuV { cpu: Cpu { pc: value, ..e1.cpu }, ..e1 }
}

fn execute_group_0(emulator: &mut Emulator, opcode: u8) -> (executed: bool)
    requires
        old(emulator)@.wf(),
        opcode < 0x10,
    ensures
        final(emulator)@.wf(),
        executed == instruction_defined(opcode),
        executed ==> final(emulator)@ == instruction_spec(old(emulator)@, opcode),
        !executed ==> final(emulator)@ == old(emulator)@,
        !old(emulator)@.cpu.branch_taken && final(emulator)@.cpu.branch_taken
            ==> is_branch_opcode(opcode),
{
    match opcode {
        0x00 => {
            brk(emulator);
            true
        }
        0x01 => {
            ora(emulator, Mode::IndirectX);
            true
        }
        0x03 => {
            slo(emulator, Mode::IndirectX);
            true
        }
        0x04 => {
            emulator.cpu.pc = ((emulator.cpu.pc as u32 + 1) % 0x10000) as u16;
            true
        }
        0x05 => {
            ora(emulator, Mode::ZeroPage);
            true
        }
        0x06 => {
            asl_mem(emulator, Mode::ZeroPage);
            true
        }
        0x07 => {
            slo(emulator, Mode::ZeroPage);
            true
        }
        0x08 => {
            let value = emulator.cpu.p | 0x30;
            push8(emulator, value);
            true
        }
        0x09 => {
            ora(emulator, Mode::Immediate);
            true
        }
        0x0a => {
            let a = emulator.cpu.a;
            let result = emulator.cpu.asl_value(a);
            emulator.cpu.a = result;
            true
        }
        0x0b => {
            aac(emulator);
            true
        }
        0x0c => {
            emulator.cpu.pc = ((emulator.cpu.pc as u32 + 2) % 0x10000) as u16;
            true
        }
        0x0d => {
            ora(emulator, Mode::Absolute);
            true
        }
        0x0e => {
            asl_mem(emulator, Mode::Absolute);
            true
        }
        0x0f => {
            slo(emulator, Mode::Absolute);
            true
        }
        _ => false,
    }
}

fn execute_group_1(emulator: &mut Emulator, opcode: u8) -> (executed: bool)
    requires
        old(emulator)@.wf(),
        0x10 <= opcode < 0x20,
    ensures
        final(emulator)@.wf(),
        executed == instruction_defined(opcode),
        executed ==> final(emulator)@ == instruction_spec(old(emulator)@, opcode),
        !executed ==> final(emulator)@ == old(emulator)@,
        !old(emulator)@.cpu.branch_taken && final(emulator)@.cpu.branch_taken
            ==> is_branch_opcode(opcode),
{
    match opcode {
        0x10 => {
            branch(emulator, FLAG_N, false);
            true
        }
        0x11 => {
            ora(emulator, Mode::IndirectY);
            true
        }
        0x13 => {
            slo(emulator, Mode::IndirectY);
            true
        }
        0x14 => {
            emulator.cpu.pc = ((emulator.cpu.pc as u32 + 1) % 0x10000) as u16;
            true
        }
        0x15 => {
            ora(emulator, Mode::ZeroPageX);
            true
        }
        0x16 => {
            asl_mem(emulator, Mode::ZeroPageX);
            true
        }
        0x17 => {
            slo(emulator, Mode::ZeroPageX);
            true
        }
        0x18 => {
            emulator.cpu.set_flag(FLAG_C, false);
            true
        }
        0x19 => {
            ora(emulator, Mode::AbsoluteY);
            true
        }
        0x1a => { true }
        0x1b => {
            slo(emulator, Mode::AbsoluteY);
            true
        }
        0x1c => {
            let _address: u16 = get_address(emulator, Mode::AbsoluteX);
            true
        }
        0x1d => {
            ora(emulator, Mode::AbsoluteX);
            true
        }
        0x1e => {
            asl_mem(emulator, Mode::AbsoluteX);
            true
        }
        0x1f => {
            slo(emulator, Mode::AbsoluteX);
            true
        }
        _ => false,
    }
}

fn execute_group_2(emulator: &mut Emulator, opcode: u8) -> (executed: bool)
    requires
        old(emulator)@.wf(),
        0x20 <= opcode < 0x30,
    ensures
        final(emulator)@.wf(),
        executed == instruction_defined(opcode),
        executed ==> final(emulator)@ == instruction_spec(old(emulator)@, opcode),
        !executed ==> final(emulator)@ == old(emulator)@,
        !old(emulator)@.cpu.branch_taken && final(emulator)@.cpu.branch_taken
            ==> is_branch_opcode(opcode),
{
    match opcode {
        0x20 => {
            jsr(emulator);
            true
        }
        0x21 => {
            and(emulator, Mode::IndirectX);
            true
        }
        0x23 => {
            rla(emulator, Mode::IndirectX);
            true
        }
        0x24 => {
            bit(emulator, Mode::ZeroPage);
            true
        }
        0x25 => {
            and(emulator, Mode::ZeroPage);
            true
        }
        0x26 => {
            rol_mem(emulator, Mode::ZeroPage);
            true
        }
        0x27 => {
            rla(emulator, Mode::ZeroPage);
            true
        }
        0x28 => {
            plp(emulator);
            true
        }
        0x29 => {
            and(emulator, Mode::Immediate);
            true
        }
        0x2a => {
            let a = emulator.cpu.a;
            let result = emulator.cpu.rol_value(a);
            emulator.cpu.a = result;
            true
        }
        0x2b => {
            aac(emulator);
            true
        }
        0x2c => {
            bit(emulator, Mode::Absolute);
            true
        }
        0x2d => {
            and(emulator, Mode::Absolute);
            true
        }
        0x2e => {
            rol_mem(emulator, Mode::Absolute);
            true
        }
        0x2f => {
            rla(emulator, Mode::Absolute);
            true
        }
        _ => false,
    }
}

fn execute_group_3(emulator: &mut Emulator, opcode: u8) -> (executed: bool)
    requires
        old(emulator)@.wf(),
        0x30 <= opcode < 0x40,
    ensures
        final(emulator)@.wf(),
        executed == instruction_defined(opcode),
        executed ==> final(emulator)@ == instruction_spec(old(emulator)@, opcode),
        !executed ==> final(emulator)@ == old(emulator)@,
        !old(emulator)@.cpu.branch_taken && final(emulator)@.cpu.branch_taken
            ==> is_branch_opcode(opcode),
{
    match opcode {
        0x30 => {
            branch(emulator, FLAG_N, true);
            true
        }
        0x31 => {
            and(emulator, Mode::IndirectY);
            true
        }
        0x33 => {
            rla(emulator, Mode::IndirectY);
            true
        }
        0x34 => {
            emulator.cpu.pc = ((emulator.cpu.pc as u32 + 1) % 0x10000) as u16;
            true
        }
        0x35 => {
            and(emulator, Mode::ZeroPageX);
            true
        }
        0x36 => {
            rol_mem(emulator, Mode::ZeroPageX);
            true
        }
        0x37 => {
            rla(emulator, Mode::ZeroPageX);
            true
        }
        0x38 => {
            emulator.cpu.set_flag(FLAG_C, true);
            true
        }
        0x39 => {
            and(emulator, Mode::AbsoluteY);
            true
        }
        0x3a => { true }
        0x3b => {
            rla(emulator, Mode::AbsoluteY);
            true
        }
        0x3c => {
            let _address: u16 = get_address(emulator, Mode::AbsoluteX);
            true
        }
        0x3d => {
            and(emulator, Mode::AbsoluteX);
            true
        }
        0x3e => {
            rol_mem(emulator, Mode::AbsoluteX);
            true
        }
        0x3f => {
            rla(emulator, Mode::AbsoluteX);
            true
        }
        _ => false,
    }
}

fn execute_group_4(emulator: &mut Emulator, opcode: u8) -> (executed: bool)
    requires
        old(emulator)@.wf(),
        0x40 <= opcode < 0x50,
    ensures
        final(emulator)@.wf(),
        executed == instruction_defined(opcode),
        executed ==> final(emulator)@ == instruction_spec(old(emulator)@, opcode),
        !executed ==> final(emulator)@ == old(emulator)@,
        !old(emulator)@.cpu.branch_taken && final(emulator)@.cpu.branch_taken
            ==> is_branch_opcode(opcode),
{
    match opcode {
        0x40 => {
            rti(emulator);
            true
        }
        0x41 => {
            eor(emulator, Mode::IndirectX);
            true
        }
        0x43 => {
            sre(emulator, Mode::IndirectX);
            true
        }
        0x44 => {
            emulator.cpu.pc = ((emulator.cpu.pc as u32 + 1) % 0x10000) as u16;
            true
        }
        0x45 => {
            eor(emulator, Mode::ZeroPage);
            true
        }
        0x46 => {
            lsr_mem(emulator, Mode::ZeroPage);
            true
        }
        0x47 => {
            sre(emulator, Mode::ZeroPage);
            true
        }
        0x48 => {
            let value = emulator.cpu.a;
            push8(emulator, value);
            true
        }
        0x49 => {
            eor(emulator, Mode::Immediate);
            true
        }
        0x4a => {
            let a = emulator.cpu.a;
            let result = emulator.cpu.lsr_value(a);
            emulator.cpu.a = result;
            true
        }
        0x4b => {
            asr(emulator);
            true
        }
        0x4c => {
            jmp_absolute(emulator);
            true
        }
        0x4d => {
            eor(emulator, Mode::Absolute);
            true
        }
        0x4e => {
            lsr_mem(emulator, Mode::Absolute);
            true
        }
        0x4f => {
            sre(emulator, Mode::Absolute);
            true
        }
        _ => false,
    }
}

fn execute_group_5(emulator: &mut Emulator, opcode: u8) -> (executed: bool)
    requires
        old(emulator)@.wf(),
        0x50 <= opcode < 0x60,
    ensures
        final(emulator)@.wf(),
        executed == instruction_defined(opcode),
        executed ==> final(emulator)@ == instruction_spec(old(emulator)@, opcode),
        !executed ==> final(emulator)@ == old(emulator)@,
        !old(emulator)@.cpu.branch_taken && final(emulator)@.cpu.branch_taken
            ==> is_branch_opcode(opcode),
{
    match opcode {
        0x50 => {
            branch(emulator, FLAG_V, false);
            true
        }
        0x51 => {
            eor(emulator, Mode::IndirectY);
            true
        }
        0x53 => {
            sre(emulator, Mode::IndirectY);
            true
        }
        0x54 => {
            emulator.cpu.pc = ((emulator.cpu.pc as u32 + 1) % 0x10000) as u16;
            true
        }
        0x55 => {
            eor(emulator, Mode::ZeroPageX);
            true
        }
        0x56 => {
            lsr_mem(emulator, Mode::ZeroPageX);
            true
        }
        0x57 => {
            sre(emulator, Mode::ZeroPageX);
            true
        }
        0x58 => {
            emulator.cpu.set_flag(FLAG_I, false);
            true
        }
        0x59 => {
            eor(emulator, Mode::AbsoluteY);
            true
        }
        0x5a => { true }
        0x5b => {
            sre(emulator, Mode::AbsoluteY);
            true
        }
        0x5c => {
            let _address: u16 = get_address(emulator, Mode::AbsoluteX);
            true
        }
        0x5d => {
            eor(emulator, Mode::AbsoluteX);
            true
        }
        0x5e => {
            lsr_mem(emulator, Mode::AbsoluteX);
            true
        }
        0x5f => {
            sre(emulator, Mode::AbsoluteX);
            true
        }
        _ => false,
    }
}

fn execute_group_6(emulator: &mut Emulator, opcode: u8) -> (executed: bool)
    requires
        old(emulator)@.wf(),
        0x60 <= opcode < 0x70,
    ensures
        final(emulator)@.wf(),
        executed == instruction_defined(opcode),
        executed ==> final(emulator)@ == instruction_spec(old(emulator)@, opcode),
        !executed ==> final(emulator)@ == old(emulator)@,
        !old(emulator)@.cpu.branch_taken && final(emulator)@.cpu.branch_taken
            ==> is_branch_opcode(opcode),
{
    match opcode {
        0x60 => {
            rts(emulator);
            true
        }
        0x61 => {
            adc(emulator, Mode::IndirectX);
            true
        }
        0x63 => {
            rra(emulator, Mode::IndirectX);
            true
        }
        0x64 => {
            emulator.cpu.pc = ((emulator.cpu.pc as u32 + 1) % 0x10000) as u16;
            true
        }
        0x65 => {
            adc(emulator, Mode::ZeroPage);
            true
        }
        0x66 => {
            ror_mem(emulator, Mode::ZeroPage);
            true
        }
        0x67 => {
            rra(emulator, Mode::ZeroPage);
            true
        }
        0x68 => {
            let value = pull8(emulator);
            emulator.cpu.a = value;
            emulator.cpu.set_nz_flags(value);
            true
        }
        0x69 => {
            adc(emulator, Mode::Immediate);
            true
        }
        0x6a => {
            let a = emulator.cpu.a;
            let result = emulator.cpu.ror_value(a);
            emulator.cpu.a = result;
            true
        }
        0x6b => {
            arr(emulator);
            true
        }
        0x6c => {
            jmp_indirect(emulator);
            true
        }
        0x6d => {
            adc(emulator, Mode::Absolute);
            true
        }
        0x6e => {
            ror_mem(emulator, Mode::Absolute);
            true
        }
        0x6f => {
            rra(emulator, Mode::Absolute);
            true
        }
        _ => false,
    }
}

fn execute_group_7(emulator: &mut Emulator, opcode: u8) -> (executed: bool)
    requires
        old(emulator)@.wf(),
        0x70 <= opcode < 0x80,
    ensures
        final(emulator)@.wf(),
        executed == instruction_defined(opcode),
        executed ==> final(emulator)@ == instruction_spec(old(emulator)@, opcode),
        !executed ==> final(emulator)@ == old(emulator)@,
        !old(emulator)@.cpu.branch_taken && final(emulator)@.cpu.branch_taken
            ==> is_branch_opcode(opcode),
{
    match opcode {
        0x70 => {
            branch(emulator, FLAG_V, true);
            true
        }
        0x71 => {
            adc(emulator, Mode::IndirectY);
            true
        }
        0x73 => {
            rra(emulator, Mode::IndirectY);
            true
        }
        0x74 => {
            emulator.cpu.pc = ((emulator.cpu.pc as u32 + 1) % 0x10000) as u16;
            true
        }
        0x75 => {
            adc(emulator, Mode::ZeroPageX);
            true
        }
        0x76 => {
            ror_mem(emulator, Mode::ZeroPageX);
            true
        }
        0x77 => {
            rra(emulator, Mode::ZeroPageX);
            true
        }
        0x78 => {
            emulator.cpu.set_flag(FLAG_I, true);
            true
        }
        0x79 => {
            adc(emulator, Mode::AbsoluteY);
            true
        }
        0x7a => { true }
        0x7b => {
            rra(emulator, Mode::AbsoluteY);
            true
        }
        0x7c => {
            let _address: u16 = get_address(emulator, Mode::AbsoluteX);
            true
        }
        0x7d => {
            adc(emulator, Mode::AbsoluteX);
            true
        }
        0x7e => {
            ror_mem(emulator, Mode::AbsoluteX);
            true
        }
        0x7f => {
            rra(emulator, Mode::AbsoluteX);
            true
        }
        _ => false,
    }
}

fn execute_group_8(emulator: &mut Emulator, opcode: u8) -> (executed: bool)
    requires
        old(emulator)@.wf(),
        0x80 <= opcode < 0x90,
    ensures
        final(emulator)@.wf(),
        executed == instruction_defined(opcode),
        executed ==> final(emulator)@ == instruction_spec(old(emulator)@, opcode),
        !executed ==> final(emulator)@ == old(emulator)@,
        !old(emulator)@.cpu.branch_taken && final(emulator)@.cpu.branch_taken
            ==> is_branch_opcode(opcode),
{
    match opcode {
        0x80 => {
            emulator.cpu.pc = ((emulator.cpu.pc as u32 + 1) % 0x10000) as u16;
            true
        }
        0x81 => {
            sta(emulator, Mode::IndirectX);
            true
        }
        0x82 => {
            emulator.cpu.pc = ((emulator.cpu.pc as u32 + 1) % 0x10000) as u16;
            true
        }
        0x83 => {
            sax(emulator, Mode::IndirectX);
            true
        }
        0x84 => {
            sty(emulator, Mode::ZeroPage);
            true
        }
        0x85 => {
            sta(emulator, Mode::ZeroPage);
            true
        }
        0x86 => {
            stx(emulator, Mode::ZeroPage);
            true
        }
        0x87 => {
            sax(emulator, Mode::ZeroPage);
            true
        }
        0x88 => {
            let value = emulator.cpu.y;
            let result = emulator.cpu.dec_value(value);
            emulator.cpu.y = result;
            true
        }
        0x89 => {
            emulator.cpu.pc = ((emulator.cpu.pc as u32 + 1) % 0x10000) as u16;
            true
        }
        0x8a => {
            let value = emulator.cpu.x;
            emulator.cpu.a = value;
            emulator.cpu.set_nz_flags(value);
            true
        }
        0x8c => {
            sty(emulator, Mode::Absolute);
            true
        }
        0x8d => {
            sta(emulator, Mode::Absolute);
            true
        }
        0x8e => {
            stx(emulator, Mode::Absolute);
            true
        }
        0x8f => {
            sax(emulator, Mode::Absolute);
            true
        }
        _ => false,
    }
}

fn execute_group_9(emulator: &mut Emulator, opcode: u8) -> (executed: bool)
    requires
        old(emulator)@.wf(),
        0x90 <= opcode < 0xa0,
    ensures
        final(emulator)@.wf(),
        executed == instruction_defined(opcode),
        executed ==> final(emulator)@ == instruction_spec(old(emulator)@, opcode),
        !executed ==> final(emulator)@ == old(emulator)@,
        !old(emulator)@.cpu.branch_taken && final(emulator)@.cpu.branch_taken
            ==> is_branch_opcode(opcode),
{
    match opcode {
        0x90 => {
            branch(emulator, FLAG_C, false);
            true
        }
        0x91 => {
            sta(emulator, Mode::IndirectY);
            true
        }
        0x94 => {
            sty(emulator, Mode::ZeroPageX);
            true
        }
        0x95 => {
            sta(emulator, Mode::ZeroPageX);
            true
        }
        0x96 => {
            stx(emulator, Mode::ZeroPageY);
            true
        }
        0x97 => {
            sax(emulator, Mode::ZeroPageY);
            true
        }
        0x98 => {
            let value = emulator.cpu.y;
            emulator.cpu.a = value;
            emulator.cpu.set_nz_flags(value);
            true
        }
        0x99 => {
            sta(emulator, Mode::AbsoluteY);
            true
        }
        0x9a => {
            emulator.cpu.s = emulator.cpu.x;
            true
        }
        0x9c => {
            sya(emulator);
            true
        }
        0x9d => {
            sta(emulator, Mode::AbsoluteX);
            true
        }
        0x9e => {
            sxa(emulator);
            true
        }
        _ => false,
    }
}

fn execute_group_a(emulator: &mut Emulator, opcode: u8) -> (executed: bool)
    requires
        old(emulator)@.wf(),
        0xa0 <= opcode < 0xb0,
    ensures
        final(emulator)@.wf(),
        executed == instruction_defined(opcode),
        executed ==> final(emulator)@ == instruction_spec(old(emulator)@, opcode),
        !executed ==> final(emulator)@ == old(emulator)@,
        !old(emulator)@.cpu.branch_taken && final(emulator)@.cpu.branch_taken
            ==> is_branch_opcode(opcode),
{
    match opcode {
        0xa0 => {
            ldy(emulator, Mode::Immediate);
            true
        }
        0xa1 => {
            lda(emulator, Mode::IndirectX);
            true
        }
        0xa2 => {
            ldx(emulator, Mode::Immediate);
            true
        }
        0xa3 => {
            lax(emulator, Mode::IndirectX);
            true
        }
        0xa4 => {
            ldy(emulator, Mode::ZeroPage);
            true
        }
        0xa5 => {
            lda(emulator, Mode::ZeroPage);
            true
        }
        0xa6 => {
            ldx(emulator, Mode::ZeroPage);
            true
        }
        0xa7 => {
            lax(emulator, Mode::ZeroPage);
            true
        }
        0xa8 => {
            let value = emulator.cpu.a;
            emulator.cpu.y = value;
            emulator.cpu.set_nz_flags(value);
            true
        }
        0xa9 => {
            lda(emulator, Mode::Immediate);
            true
        }
        0xaa => {
            let value = emulator.cpu.a;
            emulator.cpu.x = value;
            emulator.cpu.set_nz_flags(value);
            true
        }
        0xab => {
            lax(emulator, Mode::Immediate);
            true
        }
        0xac => {
            ldy(emulator, Mode::Absolute);
            true
        }
        0xad => {
            lda(emulator, Mode::Absolute);
            true
        }
        0xae => {
            ldx(emulator, Mode::Absolute);
            true
        }
        0xaf => {
            lax(emulator, Mode::Absolute);
            true
        }
        _ => false,
    }
}

fn execute_group_b(emulator: &mut Emulator, opcode: u8) -> (executed: bool)
    requires
        old(emulator)@.wf(),
        0xb0 <= opcode < 0xc0,
    ensures
        final(emulator)@.wf(),
        executed == instruction_defined(opcode),
        executed ==> final(emulator)@ == instruction_spec(old(emulator)@, opcode),
        !executed ==> final(emulator)@ == old(emulator)@,
        !old(emulator)@.cpu.branch_taken && final(emulator)@.cpu.branch_taken
            ==> is_branch_opcode(opcode),
{
    match opcode {
        0xb0 => {
            branch(emulator, FLAG_C, true);
            true
        }
        0xb1 => {
            lda(emulator, Mode::IndirectY);
            true
        }
        0xb3 => {
            lax(emulator, Mode::IndirectY);
            true
        }
        0xb4 => {
            ldy(emulator, Mode::ZeroPageX);
            true
        }
        0xb5 => {
            lda(emulator, Mode::ZeroPageX);
            true
        }
        0xb6 => {
            ldx(emulator, Mode::ZeroPageY);
            true
        }
        0xb7 => {
            lax(emulator, Mode::ZeroPageY);
            true
        }
        0xb8 => {
            emulator.cpu.set_flag(FLAG_V, false);
            true
        }
        0xb9 => {
            lda(emulator, Mode::AbsoluteY);
            true
        }
        0xba => {
            let value = emulator.cpu.s;
            emulator.cpu.x = value;
            emulator.cpu.set_nz_flags(value);
            true
        }
        0xbc => {
            ldy(emulator, Mode::AbsoluteX);
            true
        }
        0xbd => {
            lda(emulator, Mode::AbsoluteX);
            true
        }
        0xbe => {
            ldx(emulator, Mode::AbsoluteY);
            true
        }
        0xbf => {
            lax(emulator, Mode::AbsoluteY);
            true
        }
        _ => false,
    }
}

fn execute_group_c(emulator: &mut Emulator, opcode: u8) -> (executed: bool)
    requires
        old(emulator)@.wf(),
        0xc0 <= opcode < 0xd0,
    ensures
        final(emulator)@.wf(),
        executed == instruction_defined(opcode),
        executed ==> final(emulator)@ == instruction_spec(old(emulator)@, opcode),
        !executed ==> final(emulator)@ == old(emulator)@,
        !old(emulator)@.cpu.branch_taken && final(emulator)@.cpu.branch_taken
            ==> is_branch_opcode(opcode),
{
    match opcode {
        0xc0 => {
            cpy(emulator, Mode::Immediate);
            true
        }
        0xc1 => {
            cmp(emulator, Mode::IndirectX);
            true
        }
        0xc2 => {
            emulator.cpu.pc = ((emulator.cpu.pc as u32 + 1) % 0x10000) as u16;
            true
        }
        0xc3 => {
            dcp(emulator, Mode::IndirectX);
            true
        }
        0xc4 => {
            cpy(emulator, Mode::ZeroPage);
            true
        }
        0xc5 => {
            cmp(emulator, Mode::ZeroPage);
            true
        }
        0xc6 => {
            dec_mem(emulator, Mode::ZeroPage);
            true
        }
        0xc7 => {
            dcp(emulator, Mode::ZeroPage);
            true
        }
        0xc8 => {
            let value = emulator.cpu.y;
            let result = emulator.cpu.inc_value(value);
            emulator.cpu.y = result;
            true
        }
        0xc9 => {
            cmp(emulator, Mode::Immediate);
            true
        }
        0xca => {
            let value = emulator.cpu.x;
            let result = emulator.cpu.dec_value(value);
            emulator.cpu.x = result;
            true
        }
        0xcb => {
            axs(emulator);
            true
        }
        0xcc => {
            cpy(emulator, Mode::Absolute);
            true
        }
        0xcd => {
            cmp(emulator, Mode::Absolute);
            true
        }
        0xce => {
            dec_mem(emulator, Mode::Absolute);
            true
        }
        0xcf => {
            dcp(emulator, Mode::Absolute);
            true
        }
        _ => false,
    }
}

fn execute_group_d(emulator: &mut Emulator, opcode: u8) -> (executed: bool)
    requires
        old(emulator)@.wf(),
        0xd0 <= opcode < 0xe0,
    ensures
        final(emulator)@.wf(),
        executed == instruction_defined(opcode),
        executed ==> final(emulator)@ == instruction_spec(old(emulator)@, opcode),
        !executed ==> final(emulator)@ == old(emulator)@,
        !old(emulator)@.cpu.branch_taken && final(emulator)@.cpu.branch_taken
            ==> is_branch_opcode(opcode),
{
    match opcode {
        0xd0 => {
            branch(emulator, FLAG_Z, false);
            true
        }
        0xd1 => {
            cmp(emulator, Mode::IndirectY);
            true
        }
        0xd3 => {
            dcp(emulator, Mode::IndirectY);
            true
        }
        0xd4 => {
            emulator.cpu.pc = ((emulator.cpu.pc as u32 + 1) % 0x10000) as u16;
            true
        }
        0xd5 => {
            cmp(emulator, Mode::ZeroPageX);
            true
        }
        0xd6 => {
            dec_mem(emulator, Mode::ZeroPageX);
            true
        }
        0xd7 => {
            dcp(emulator, Mode::ZeroPageX);
            true
        }
        0xd8 => {
            emulator.cpu.set_flag(FLAG_D, false);
            true
        }
        0xd9 => {
            cmp(emulator, Mode::AbsoluteY);
            true
        }
        0xda => { true }
        0xdb => {
            dcp(emulator, Mode::AbsoluteY);
            true
        }
        0xdc => {
            let _address: u16 = get_address(emulator, Mode::AbsoluteX);
            true
        }
        0xdd => {
            cmp(emulator, Mode::AbsoluteX);
            true
        }
        0xde => {
            dec_mem(emulator, Mode::AbsoluteX);
            true
        }
        0xdf => {
            dcp(emulator, Mode::AbsoluteX);
            true
        }
        _ => false,
    }
}

fn execute_group_e(emulator: &mut Emulator, opcode: u8) -> (executed: bool)
    requires
        old(emulator)@.wf(),
        0xe0 <= opcode < 0xf0,
    ensures
        final(emulator)@.wf(),
        executed == instruction_defined(opcode),
        executed ==> final(emulator)@ == instruction_spec(old(emulator)@, opcode),
        !executed ==> final(emulator)@ == old(emulator)@,
        !old(emulator)@.cpu.branch_taken && final(emulator)@.cpu.branch_taken
            ==> is_branch_opcode(opcode),
{
    match opcode {
        0xe0 => {
            cpx(emulator, Mode::Immediate);
            true
        }
        0xe1 => {
            sbc(emulator, Mode::IndirectX);
            true
        }
        0xe2 => {
            emulator.cpu.pc = ((emulator.cpu.pc as u32 + 1) % 0x10000) as u16;
            true
        }
        0xe3 => {
            isb(emulator, Mode::IndirectX);
            true
        }
        0xe4 => {
            cpx(emulator, Mode::ZeroPage);
            true
        }
        0xe5 => {
            sbc(emulator, Mode::ZeroPage);
            true
        }
        0xe6 => {
            inc_mem(emulator, Mode::ZeroPage);
            true
        }
        0xe7 => {
            isb(emulator, Mode::ZeroPage);
            true
        }
        0xe8 => {
            let value = emulator.cpu.x;
            let result = emulator.cpu.inc_value(value);
            emulator.cpu.x = result;
            true
        }
        0xe9 => {
            sbc(emulator, Mode::Immediate);
            true
        }
        0xea => { true }
        0xeb => {
            sbc(emulator, Mode::Immediate);
            true
        }
        0xec => {
            cpx(emulator, Mode::Absolute);
            true
        }
        0xed => {
            sbc(emulator, Mode::Absolute);
            true
        }
        0xee => {
            inc_mem(emulator, Mode::Absolute);
            true
        }
        0xef => {
            isb(emulator, Mode::Absolute);
            true
        }
        _ => false,
    }
}

fn execute_group_f(emulator: &mut Emulator, opcode: u8) -> (executed: bool)
    requires
        old(emulator)@.wf(),
        0xf0 <= opcode < 0x100,
    ensures
        final(emulator)@.wf(),
        executed == instruction_defined(opcode),
        executed ==> final(emulator)@ == instruction_spec(old(emulator)@, opcode),
        !executed ==> final(emulator)@ == old(emulator)@,
        !old(emulator)@.cpu.branch_taken && final(emulator)@.cpu.branch_taken
            ==> is_branch_opcode(opcode),
{
    match opcode {
        0xf0 => {
            branch(emulator, FLAG_Z, true);
            true
        }
        0xf1 => {
            sbc(emulator, Mode::IndirectY);
            true
        }
        0xf3 => {
            isb(emulator, Mode::IndirectY);
            true
        }
        0xf4 => {
            emulator.cpu.pc = ((emulator.cpu.pc as u32 + 1) % 0x10000) as u16;
            true
        }
        0xf5 => {
            sbc(emulator, Mode::ZeroPageX);
            true
        }
        0xf6 => {
            inc_mem(emulator, Mode::ZeroPageX);
            true
        }
        0xf7 => {
            isb(emulator, Mode::ZeroPageX);
            true
        }
        0xf8 => {
            emulator.cpu.set_flag(FLAG_D, true);
            true
        }
        0xf9 => {
            sbc(emulator, Mode::AbsoluteY);
            true
        }
        0xfa => { true }
        0xfb => {
            isb(emulator, Mode::AbsoluteY);
            true
        }
        0xfc => {
            let _address: u16 = get_address(emulator, Mode::AbsoluteX);
            true
        }
        0xfd => {
            sbc(emulator, Mode::AbsoluteX);
            true
        }
        0xfe => {
            inc_mem(emulator, Mode::AbsoluteX);
            true
        }
        0xff => {
            isb(emulator, Mode::AbsoluteX);
            true
        }
        _ => false,
    }
}

/// Execute one already-fetched opcode. Returns whether the opcode is
/// one the interpreter defines; an undefined one leaves the machine
/// untouched.
fn execute_opcode(emulator: &mut Emulator, opcode: u8) -> (executed: bool)
    requires
        old(emulator)@.wf(),
    ensures
        final(emulator)@.wf(),
        executed == instruction_defined(opcode),
        executed ==> final(emulator)@ == instruction_spec(old(emulator)@, opcode),
        !executed ==> final(emulator)@ == old(emulator)@,
        !old(emulator)@.cpu.branch_taken && final(emulator)@.cpu.branch_taken
            ==> is_branch_opcode(opcode),
{
    if opcode < 0x10 {
        execute_group_0(emulator, opcode)
    } else if opcode < 0x20 {
        execute_group_1(emulator, opcode)
    } else if opcode < 0x30 {
        execute_group_2(emulator, opcode)
    } else if opcode < 0x40 {
        execute_group_3(emulator, opcode)
    } else if opcode < 0x50 {
        execute_group_4(emulator, opcode)
    } else if opcode < 0x60 {
        execute_group_5(emulator, opcode)
    } else if opcode < 0x70 {
        execute_group_6(emulator, opcode)
    } else if opcode < 0x80 {
        execute_group_7(emulator, opcode)
    } else if opcode < 0x90 {
        execute_group_8(emulator, opcode)
    } else if opcode < 0xa0 {
        execute_group_9(emulator, opcode)
    } else if opcode < 0xb0 {
        execute_group_a(emulator, opcode)
    } else if opcode < 0xc0 {
        execute_group_b(emulator, opcode)
    } else if opcode < 0xd0 {
        execute_group_c(emulator, opcode)
    } else if opcode < 0xe0 {
        execute_group_d(emulator, opcode)
    } else if opcode < 0xf0 {
        execute_group_e(emulator, opcode)
    } else {
        execute_group_f(emulator, opcode)
    }
}

impl Cpu {
    pub fn init_pc(emulator: &mut Emulator)
        requires
            old(emulator)@.wf(),
        ensures
            final(emulator)@ == init_pc_spec(old(emulator)@),
            final(emulator)@.wf(),
    {
        let value = bus::read16(emulator, RESET_VECTOR_ADDRESS);
        emulator.cpu.pc = value;
    }

    /// Service a pending interrupt, fetch one opcode and execute it.
    /// Returns the cycles consumed, always between 2 and 8, or `None`
    /// when the opcode is undefined and the machine halts.
    #[verifier::rlimit(100)]
    pub fn execute_next_instruction(emulator: &mut Emulator) -> (cycles: Option<u8>)
        requires
            old(emulator)@.wf(),
        ensures
            final(emulator)@ == step_spec(old(emulator)@).0,
            cycles == step_spec(old(emulator)@).1,
            cycles matches Some(c) ==> 2 <= c <= 8,
            final(emulator)@.wf(),
    {
        match emulator.cpu.pending_interrupt {
            Some(Interrupt::Nmi) => perform_interrupt(emulator, NMI_VECTOR_ADDRESS),
            Some(Interrupt::Irq) => {
                if !emulator.cpu.get_flag(FLAG_I) {
                    perform_interrupt(emulator, IRQ_VECTOR_ADDRESS);
                }
            }
            None => {}
        }
        let opcode = read_next8(emulator);
        emulator.cpu.branch_taken = false;
        emulator.cpu.page_crossed = false;
        proof {
            assert(emulator@ == decoded(old(emulator)@).0);
            assert(opcode == decoded(old(emulator)@).1);
        }
        let executed: bool = execute_opcode(emulator, opcode);
        if !executed {
            return None;
        }
        let pair = opcode_cycles(opcode);
        let base = if emulator.cpu.page_crossed { pair.1 } else { pair.0 };
        let total = base + (if emulator.cpu.branch_taken { 1 } else { 0 });
        Some(total)
    }
}

} // verus!
