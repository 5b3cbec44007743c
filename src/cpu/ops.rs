//! Addressing modes, the stack helpers shared by the instructions, the `Op`
//! capability each instruction implements, and the dispatch table.
use vstd::prelude::*;
use crate::cpu::memory::{BusError, Memory, MemoryView, le16, unmirrored};
use crate::cpu::register::{CpuRegisters, StatusRegister, sp_after_pull, sp_after_push};

pub mod arith;
pub mod flags;
pub mod flow;
pub mod incdec;
pub mod load_store;
pub mod logic;
pub mod shift;
pub mod stack;
pub mod table;
pub mod transfer;

verus! {

/// Base address of the 256-byte stack page.
pub const STACK_START: u16 = 0x0100;

#[derive(Clone, Copy, Debug, PartialEq, Eq, Structural)]
pub enum AddressingMode {
    Implicit,
    Accumulator,
    Relative,
    Immediate,
    ZeroPage,
    ZeroPageX,
    ZeroPageY,
    Absolute,
    AbsoluteX,
    AbsoluteY,
    Indirect,
    IndirectX,
    IndirectY,
}

impl AddressingMode {
    /// Every mode but Accumulator and Implicit locates its operand on the bus.
    pub open spec fn has_address(self) -> bool {
        !(self is Accumulator || self is Implicit)
    }

    /// Modes with an operand: those with an address, and Accumulator.
    pub open spec fn has_operand(self) -> bool {
        !(self is Implicit)
    }
}

/// The byte `b` read as a two's-complement number.
pub open spec fn signed(b: u8) -> int {
    if b >= 128 {
        b - 256
    } else {
        b as int
    }
}

/// `base + offset`, wrapping within 16 bits.
pub open spec fn add16(base: int, offset: int) -> u16 {
    ((base + offset) % 0x10000) as u16
}

/// `base + offset`, wrapping within the zero page.
pub open spec fn add8(base: int, offset: int) -> u8 {
    ((base + offset) % 256) as u8
}

/// The 16-bit pointer stored at zero-page location `z`; its high byte is
/// read from `z + 1` within the zero page.
pub open spec fn zero_page_pointer(m: MemoryView, z: u8) -> u16 {
    le16(m.read(z as u16), m.read(add8(z as int, 1) as u16))
}

/// The effective address of a mode, with the program counter on the byte
/// after the opcode.
pub open spec fn operand_address(mode: AddressingMode, r: CpuRegisters, m: MemoryView) -> u16 {
    let pc = r.pc.value;
    match mode {
        AddressingMode::Immediate => pc,
        AddressingMode::ZeroPage => m.read(pc) as u16,
        AddressingMode::ZeroPageX => add8(m.read(pc) as int, r.x.value as int) as u16,
        AddressingMode::ZeroPageY => add8(m.read(pc) as int, r.y.value as int) as u16,
        AddressingMode::Absolute => m.read_u16(pc),
        AddressingMode::AbsoluteX => add16(m.read_u16(pc) as int, r.x.value as int),
        AddressingMode::AbsoluteY => add16(m.read_u16(pc) as int, r.y.value as int),
        AddressingMode::Indirect => m.read_u16(m.read_u16(pc)),
        AddressingMode::IndirectX => zero_page_pointer(m, add8(m.read(pc) as int, r.x.value as int)),
        AddressingMode::IndirectY => add16(zero_page_pointer(m, m.read(pc)) as int, r.y.value as int),
        AddressingMode::Relative => add16(pc + 1, signed(m.read(pc))),
        _ => 0,
    }
}

/// The operand value of a mode: the accumulator itself in Accumulator mode,
/// else the byte at the effective address.
pub open spec fn operand_value(mode: AddressingMode, r: CpuRegisters, m: MemoryView) -> u8 {
    if mode is Accumulator {
        r.a.value
    } else {
        m.read(operand_address(mode, r, m))
    }
}

/// Reads the pointer stored at zero-page location `z`.
fn pointer_at(memory: &Memory, z: u8) -> (r: u16)
    requires
        memory.wf(),
    ensures
        r == zero_page_pointer(memory@, z),
{
    let lsb = memory.read(z as u16);
    let msb = memory.read(z.wrapping_add(1) as u16);
    (msb as u16) * 256 + (lsb as u16)
}

/// Target of a branch whose operand byte is at `pc`.
fn relative_target(pc: u16, offset: u8) -> (r: u16)
    ensures
        r == add16(pc + 1, signed(offset)),
{
    let next = pc.wrapping_add(1);
    if offset >= 128 {
        next.wrapping_sub(256 - offset as u16)
    } else {
        next.wrapping_add(offset as u16)
    }
}

/// Resolves the effective address of a mode.
pub fn operand_addr(mode: AddressingMode, registers: &CpuRegisters, memory: &Memory) -> (r: u16)
    requires
        memory.wf(),
        mode.has_address(),
    ensures
        r == operand_address(mode, *registers, memory@),
{
    let pc = registers.pc.value;
    match mode {
        AddressingMode::Immediate => pc,
        AddressingMode::ZeroPage => memory.read(pc) as u16,
        AddressingMode::ZeroPageX => memory.read(pc).wrapping_add(registers.x.value) as u16,
        AddressingMode::ZeroPageY => memory.read(pc).wrapping_add(registers.y.value) as u16,
        AddressingMode::Absolute => memory.read_u16(pc),
        AddressingMode::AbsoluteX => memory.read_u16(pc).wrapping_add(registers.x.value as u16),
        AddressingMode::AbsoluteY => memory.read_u16(pc).wrapping_add(registers.y.value as u16),
        AddressingMode::Indirect => memory.read_u16(memory.read_u16(pc)),
        AddressingMode::IndirectX => pointer_at(memory, memory.read(pc).wrapping_add(registers.x.value)),
        AddressingMode::IndirectY => pointer_at(memory, memory.read(pc)).wrapping_add(registers.y.value as u16),
        AddressingMode::Relative => relative_target(pc, memory.read(pc)),
        _ => 0,
    }
}

/// Reads the operand of a mode.
pub fn operand(mode: AddressingMode, registers: &CpuRegisters, memory: &Memory) -> (r: u8)
    requires
        memory.wf(),
        mode.has_operand(),
    ensures
        r == operand_value(mode, *registers, memory@),
{
    if let AddressingMode::Accumulator = mode {
        return registers.a.value;
    }
    memory.read(operand_addr(mode, registers, memory))
}

/// Address of the stack slot the stack pointer `sp` designates.
pub open spec fn stack_slot(sp: u8) -> u16 {
    (STACK_START + sp) as u16
}

/// Registers and bus after pushing `value`.
pub open spec fn pushed(r: CpuRegisters, m: MemoryView, value: u8) -> (CpuRegisters, MemoryView) {
    (r.with_sp(sp_after_push(r.sp.value)), m.write(stack_slot(r.sp.value), value))
}

/// Registers and bus after pushing a 16-bit value, high byte first.
pub open spec fn pushed_u16(r: CpuRegisters, m: MemoryView, value: u16) -> (CpuRegisters, MemoryView) {
    let s = pushed(r, m, (value / 256) as u8);
    pushed(s.0, s.1, (value % 256) as u8)
}

/// Registers after pulling one byte, and the byte pulled.
pub open spec fn pulled(r: CpuRegisters, m: MemoryView) -> (CpuRegisters, u8) {
    let sp = sp_after_pull(r.sp.value);
    (r.with_sp(sp), m.read(stack_slot(sp)))
}

/// Registers after pulling two bytes, low byte first, and the 16-bit value.
pub open spec fn pulled_u16(r: CpuRegisters, m: MemoryView) -> (CpuRegisters, u16) {
    let lo = pulled(r, m);
    let hi = pulled(lo.0, m);
    (hi.0, le16(lo.1, hi.1))
}

/// Stack slots are never mirrored: each lands on its own backing byte.
pub proof fn lemma_stack_slot_unmirrored(sp: u8)
    ensures
        unmirrored(stack_slot(sp)) == stack_slot(sp) as int,
{
    let s = stack_slot(sp);
    assert(0x100 <= s <= 0x1FF);
    assert(0x100 <= s <= 0x1FF ==> s & 0x07FF == s) by (bit_vector);
}

/// Pulling right after a push gives back the pushed byte and the registers
/// as they were before the push, stack pointer included; the bus differs
/// from before only in the stack slot that was written.
pub proof fn lemma_push_pull(r: CpuRegisters, m: MemoryView, value: u8)
    requires
        m.wf(),
    ensures
        pulled(pushed(r, m, value).0, pushed(r, m, value).1) == (r, value),
        pushed(r, m, value).1 == m.write(stack_slot(r.sp.value), value),
{
    let s = pushed(r, m, value);
    assert(sp_after_pull(sp_after_push(r.sp.value)) == r.sp.value);
    assert(s.0.with_sp(r.sp.value) == r);
}

/// The same for a 16-bit value: pulling it right after pushing it gives the
/// value back and restores every register.
pub proof fn lemma_push_pull_u16(r: CpuRegisters, m: MemoryView, value: u16)
    requires
        m.wf(),
    ensures
        pulled_u16(pushed_u16(r, m, value).0, pushed_u16(r, m, value).1) == (r, value),
{
    let hi = (value / 256) as u8;
    let lo = (value % 256) as u8;
    let sp0 = r.sp.value;
    let sp1 = sp_after_push(sp0);
    let s = pushed_u16(r, m, value);
    lemma_stack_slot_unmirrored(sp0);
    lemma_stack_slot_unmirrored(sp1);
    assert(sp_after_pull(sp_after_push(sp1)) == sp1);
    assert(sp_after_pull(sp1) == sp0);
    assert(stack_slot(sp0) != stack_slot(sp1));
    assert(s.1.read(stack_slot(sp1)) == lo);
    assert(s.1.read(stack_slot(sp0)) == hi);
    assert(le16(lo, hi) == value);
    assert(s.0.with_sp(sp0) == r);
}

/// Zero-page indexed addressing stays in the zero page: the effective
/// address is the base byte plus the index, modulo 256.
pub proof fn lemma_zero_page_indexed_wraps(mode: AddressingMode, r: CpuRegisters, m: MemoryView)
    requires
        mode is ZeroPageX || mode is ZeroPageY,
    ensures
        operand_address(mode, r, m) < 0x100,
        operand_address(mode, r, m) == (m.read(r.pc.value) + if mode is ZeroPageX {
            r.x.value
        } else {
            r.y.value
        }) % 256,
{
}

/// Pushes a byte onto the stack page and moves the stack pointer down.
pub fn stack_push(registers: &mut CpuRegisters, memory: &mut Memory, value: u8)
    requires
        old(memory).wf(),
    ensures
        final(memory).wf(),
        (*final(registers), final(memory)@) == pushed(*old(registers), old(memory)@, value),
{
    let slot = STACK_START + registers.sp.decrement() as u16;
    let _ = memory.write(slot, value);
}

/// Pushes a 16-bit value, high byte first.
pub fn stack_push_u16(registers: &mut CpuRegisters, memory: &mut Memory, value: u16)
    requires
        old(memory).wf(),
    ensures
        final(memory).wf(),
        (*final(registers), final(memory)@) == pushed_u16(*old(registers), old(memory)@, value),
{
    stack_push(registers, memory, (value / 256) as u8);
    stack_push(registers, memory, (value % 256) as u8);
}

/// Moves the stack pointer up and reads the byte it then designates.
pub fn stack_pop(registers: &mut CpuRegisters, memory: &Memory) -> (r: u8)
    requires
        memory.wf(),
    ensures
        (*final(registers), r) == pulled(*old(registers), memory@),
{
    let sp = registers.sp.increment();
    memory.read(STACK_START + sp as u16)
}

/// Pulls a 16-bit value, low byte first.
pub fn stack_pop_u16(registers: &mut CpuRegisters, memory: &Memory) -> (r: u16)
    requires
        memory.wf(),
    ensures
        (*final(registers), r) == pulled_u16(*old(registers), memory@),
{
    let lsb = stack_pop(registers, memory);
    let msb = stack_pop(registers, memory);
    (msb as u16) * 256 + (lsb as u16)
}

/// The byte on top of the stack, without pulling it.
pub fn stack_peek(registers: &CpuRegisters, memory: &Memory) -> (r: u8)
    requires
        memory.wf(),
    ensures
        r == pulled(*registers, memory@).1,
{
    memory.read(STACK_START + registers.sp.value.wrapping_add(1) as u16)
}

/// The 16-bit value on top of the stack, without pulling it.
pub fn stack_peek_u16(registers: &CpuRegisters, memory: &Memory) -> (r: u16)
    requires
        memory.wf(),
    ensures
        r == pulled_u16(*registers, memory@).1,
{
    let lsb = memory.read(STACK_START + registers.sp.value.wrapping_add(1) as u16);
    let msb = memory.read(STACK_START + registers.sp.value.wrapping_add(2) as u16);
    (msb as u16) * 256 + (lsb as u16)
}

/// Registers and bus after an instruction, or `None` when it would write
/// into the program window.
pub type Effect = Option<(CpuRegisters, MemoryView)>;

/// The capability every instruction has: run with a resolved addressing
/// mode against the registers and the bus.
pub trait Op {
    /// Modes the instruction can run with.
    spec fn accepts(&self, mode: AddressingMode) -> bool;

    /// What running the instruction does.
    spec fn effect(&self, mode: AddressingMode, r: CpuRegisters, m: MemoryView) -> Effect;

    /// Runs the instruction. A write into the program window is refused with
    /// registers and bus left as they were.
    fn call(&self, mode: AddressingMode, registers: &mut CpuRegisters, memory: &mut Memory) -> (res:
        Result<(), BusError>)
        requires
            old(memory).wf(),
            self.accepts(mode),
        ensures
            final(memory).wf(),
            match self.effect(mode, *old(registers), old(memory)@) {
                Some(s) => res is Ok && *final(registers) == s.0 && final(memory)@ == s.1,
                None => res == Err::<(), BusError>(
                    BusError::ReadOnly(operand_address(mode, *old(registers), old(memory)@)),
                ) && *final(registers) == *old(registers) && final(memory)@ == old(memory)@,
            },
    ;
}

/// Result of a read-modify-write instruction that produced `res` and flags
/// `p`: the accumulator takes `res` in Accumulator mode, else the byte at the
/// effective address does, which fails in the program window.
pub open spec fn write_back_effect(mode: AddressingMode, r: CpuRegisters, m: MemoryView, res: u8, p: StatusRegister) -> Effect {
    if mode is Accumulator {
        Some((r.with_a(res).with_p(p), m))
    } else {
        let addr = operand_address(mode, r, m);
        if MemoryView::writable(addr) {
            Some((r.with_p(p), m.write(addr, res)))
        } else {
            None
        }
    }
}

/// Stores `res` where the mode's operand lives and, on success, installs
/// the flags `p`.
pub fn write_back(mode: AddressingMode, registers: &mut CpuRegisters, memory: &mut Memory, res: u8, p: StatusRegister) -> (r: Result<(), BusError>)
    requires
        old(memory).wf(),
        mode.has_operand(),
    ensures
        final(memory).wf(),
        match write_back_effect(mode, *old(registers), old(memory)@, res, p) {
            Some(s) => r is Ok && *final(registers) == s.0 && final(memory)@ == s.1,
            None => r == Err::<(), BusError>(
                BusError::ReadOnly(operand_address(mode, *old(registers), old(memory)@)),
            ) && *final(registers) == *old(registers) && final(memory)@ == old(memory)@,
        },
{
    if let AddressingMode::Accumulator = mode {
        registers.a.set(res);
        registers.p = p;
        return Ok(());
    }
    let addr = operand_addr(mode, registers, memory);
    match memory.write(addr, res) {
        Ok(()) => {
            registers.p = p;
            Ok(())
        },
        Err(e) => Err(e),
    }
}

/// Encoded length of an instruction, opcode byte included.
pub open spec fn encoded_length(mode: AddressingMode) -> u8 {
    match mode {
        AddressingMode::Absolute | AddressingMode::AbsoluteX | AddressingMode::AbsoluteY
        | AddressingMode::Indirect => 3,
        AddressingMode::Accumulator | AddressingMode::Implicit => 1,
        _ => 2,
    }
}

pub fn opcode_length(mode: AddressingMode) -> (r: u8)
    ensures
        r == encoded_length(mode),
{
    match mode {
        AddressingMode::Immediate => 2,
        AddressingMode::ZeroPage | AddressingMode::ZeroPageX | AddressingMode::ZeroPageY => 2,
        AddressingMode::Relative => 2,
        AddressingMode::Absolute | AddressingMode::AbsoluteX | AddressingMode::AbsoluteY => 3,
        AddressingMode::Indirect => 3,
        AddressingMode::IndirectX | AddressingMode::IndirectY => 2,
        AddressingMode::Accumulator => 1,
        AddressingMode::Implicit => 1,
    }
}

} // verus!
