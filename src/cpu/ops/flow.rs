//! Branches, jumps, subroutine calls and returns, break and return from
//! interrupt, and the no-operation.
use vstd::prelude::*;
use crate::cpu::memory::{BusError, Memory, MemoryView, le16};
use crate::cpu::register::{BREAK_FLAG, CpuRegisters, StatusRegister};
use super::{
    AddressingMode, Effect, Op, add16, operand_addr, operand_address, pulled, pulled_u16, pushed, pushed_u16,
    stack_pop, stack_pop_u16, stack_push, stack_push_u16,
};
use super::stack::pushed_flags;

verus! {

/// Address of the 16-bit break vector.
pub const BRK_VECTOR: u16 = 0xFFFE;

/// Registers after a branch: the program counter moves to the mode's target
/// exactly when `taken`.
pub open spec fn branch_effect(taken: bool, mode: AddressingMode, r: CpuRegisters, m: MemoryView) -> Effect {
    if taken {
        Some((r.with_pc(operand_address(mode, r, m)), m))
    } else {
        Some((r, m))
    }
}

fn branch_if(taken: bool, mode: AddressingMode, registers: &mut CpuRegisters, memory: &Memory)
    requires
        memory.wf(),
        mode.has_address(),
    ensures
        branch_effect(taken, mode, *old(registers), memory@) == Some((*final(registers), memory@)),
{
    if taken {
        let target = operand_addr(mode, registers, memory);
        registers.pc.set(target);
    }
}

/// Branch if carry clear.
#[derive(Debug)]
pub struct Bcc;

impl Op for Bcc {
    open spec fn accepts(&self, mode: AddressingMode) -> bool {
        mode.has_address()
    }

    open spec fn effect(&self, mode: AddressingMode, r: CpuRegisters, m: MemoryView) -> Effect {
        branch_effect(!r.p.carry, mode, r, m)
    }

    fn call(&self, mode: AddressingMode, registers: &mut CpuRegisters, memory: &mut Memory) -> (res: Result<(), BusError>) {
        let taken = !registers.p.has_carry();
        branch_if(taken, mode, registers, memory);
        Ok(())
    }
}

/// Branch if carry set.
#[derive(Debug)]
pub struct Bcs;

impl Op for Bcs {
    open spec fn accepts(&self, mode: AddressingMode) -> bool {
        mode.has_address()
    }

    open spec fn effect(&self, mode: AddressingMode, r: CpuRegisters, m: MemoryView) -> Effect {
        branch_effect(r.p.carry, mode, r, m)
    }

    fn call(&self, mode: AddressingMode, registers: &mut CpuRegisters, memory: &mut Memory) -> (res: Result<(), BusError>) {
        let taken = registers.p.has_carry();
        branch_if(taken, mode, registers, memory);
        Ok(())
    }
}

/// Branch if zero set.
#[derive(Debug)]
pub struct Beq;

impl Op for Beq {
    open spec fn accepts(&self, mode: AddressingMode) -> bool {
        mode.has_address()
    }

    open spec fn effect(&self, mode: AddressingMode, r: CpuRegisters, m: MemoryView) -> Effect {
        branch_effect(r.p.zero, mode, r, m)
    }

    fn call(&self, mode: AddressingMode, registers: &mut CpuRegisters, memory: &mut Memory) -> (res: Result<(), BusError>) {
        let taken = registers.p.is_zero();
        branch_if(taken, mode, registers, memory);
        Ok(())
    }
}

/// Branch if negative set.
#[derive(Debug)]
pub struct Bmi;

impl Op for Bmi {
    open spec fn accepts(&self, mode: AddressingMode) -> bool {
        mode.has_address()
    }

    open spec fn effect(&self, mode: AddressingMode, r: CpuRegisters, m: MemoryView) -> Effect {
        branch_effect(r.p.negative, mode, r, m)
    }

    fn call(&self, mode: AddressingMode, registers: &mut CpuRegisters, memory: &mut Memory) -> (res: Result<(), BusError>) {
        let taken = registers.p.is_negative();
        branch_if(taken, mode, registers, memory);
        Ok(())
    }
}

/// Branch if zero clear.
#[derive(Debug)]
pub struct Bne;

impl Op for Bne {
    open spec fn accepts(&self, mode: AddressingMode) -> bool {
        mode.has_address()
    }

    open spec fn effect(&self, mode: AddressingMode, r: CpuRegisters, m: MemoryView) -> Effect {
        branch_effect(!r.p.zero, mode, r, m)
    }

    fn call(&self, mode: AddressingMode, registers: &mut CpuRegisters, memory: &mut Memory) -> (res: Result<(), BusError>) {
        let taken = !registers.p.is_zero();
        branch_if(taken, mode, registers, memory);
        Ok(())
    }
}

/// Branch if negative clear.
#[derive(Debug)]
pub struct Bpl;

impl Op for Bpl {
    open spec fn accepts(&self, mode: AddressingMode) -> bool {
        mode.has_address()
    }

    open spec fn effect(&self, mode: AddressingMode, r: CpuRegisters, m: MemoryView) -> Effect {
        branch_effect(!r.p.negative, mode, r, m)
    }

    fn call(&self, mode: AddressingMode, registers: &mut CpuRegisters, memory: &mut Memory) -> (res: Result<(), BusError>) {
        let taken = !registers.p.is_negative();
        branch_if(taken, mode, registers, memory);
        Ok(())
    }
}

/// Branch if overflow clear.
#[derive(Debug)]
pub struct Bvc;

impl Op for Bvc {
    open spec fn accepts(&self, mode: AddressingMode) -> bool {
        mode.has_address()
    }

    open spec fn effect(&self, mode: AddressingMode, r: CpuRegisters, m: MemoryView) -> Effect {
        branch_effect(!r.p.overflow, mode, r, m)
    }

    fn call(&self, mode: AddressingMode, registers: &mut CpuRegisters, memory: &mut Memory) -> (res: Result<(), BusError>) {
        let taken = !registers.p.has_overflown();
        branch_if(taken, mode, registers, memory);
        Ok(())
    }
}

/// Branch if overflow set.
#[derive(Debug)]
pub struct Bvs;

impl Op for Bvs {
    open spec fn accepts(&self, mode: AddressingMode) -> bool {
        mode.has_address()
    }

    open spec fn effect(&self, mode: AddressingMode, r: CpuRegisters, m: MemoryView) -> Effect {
        branch_effect(r.p.overflow, mode, r, m)
    }

    fn call(&self, mode: AddressingMode, registers: &mut CpuRegisters, memory: &mut Memory) -> (res: Result<(), BusError>) {
        let taken = registers.p.has_overflown();
        branch_if(taken, mode, registers, memory);
        Ok(())
    }
}

/// Address of the second byte of an indirect jump's target: the byte after
/// `ptr` within the same page (the low byte wraps, the page never changes).
pub open spec fn same_page_next(ptr: u16) -> u16 {
    (ptr - ptr % 256 + (ptr % 256 + 1) % 256) as u16
}

/// Target of an indirect jump through the pointer `ptr`.
pub open spec fn indirect_jump_target(m: MemoryView, ptr: u16) -> u16 {
    le16(m.read(ptr), m.read(same_page_next(ptr)))
}

/// Target of a jump: through the page-wrapping pointer in Indirect mode,
/// else the effective address.
pub open spec fn jump_target(mode: AddressingMode, r: CpuRegisters, m: MemoryView) -> u16 {
    if mode is Indirect {
        indirect_jump_target(m, m.read_u16(r.pc.value))
    } else {
        operand_address(mode, r, m)
    }
}

/// The indirect jump's second byte comes from the pointer's own page: the
/// low byte of the pointer wraps and its high byte never changes.
pub proof fn lemma_indirect_jump_same_page(ptr: u16)
    ensures
        same_page_next(ptr) / 256 == ptr / 256,
        same_page_next(ptr) % 256 == (ptr % 256 + 1) % 256,
{
}

/// Jump.
#[derive(Debug)]
pub struct Jmp;

impl Op for Jmp {
    open spec fn accepts(&self, mode: AddressingMode) -> bool {
        mode.has_address()
    }

    open spec fn effect(&self, mode: AddressingMode, r: CpuRegisters, m: MemoryView) -> Effect {
        Some((r.with_pc(jump_target(mode, r, m)), m))
    }

    fn call(&self, mode: AddressingMode, registers: &mut CpuRegisters, memory: &mut Memory) -> (res: Result<(), BusError>) {
        let addr = match mode {
            AddressingMode::Indirect => {
                let ptr = memory.read_u16(registers.pc.value);
                let low = ptr % 256;
                let next = (ptr - low) + (low + 1) % 256;
                let lsb = memory.read(ptr);
                let msb = memory.read(next);
                (msb as u16) * 256 + (lsb as u16)
            },
            _ => operand_addr(mode, registers, memory),
        };
        registers.pc.set(addr);
        Ok(())
    }
}

/// Jump to subroutine: pushes the address of the call's last byte, high
/// byte first, then jumps.
#[derive(Debug)]
pub struct Jsr;

impl Op for Jsr {
    open spec fn accepts(&self, mode: AddressingMode) -> bool {
        mode.has_address()
    }

    open spec fn effect(&self, mode: AddressingMode, r: CpuRegisters, m: MemoryView) -> Effect {
        let s = pushed_u16(r, m, add16(r.pc.value as int, 1));
        Some((s.0.with_pc(operand_address(mode, s.0, s.1)), s.1))
    }

    fn call(&self, mode: AddressingMode, registers: &mut CpuRegisters, memory: &mut Memory) -> (res: Result<(), BusError>) {
        let ret = registers.pc.value.wrapping_add(1);
        stack_push_u16(registers, memory, ret);
        let addr = operand_addr(mode, registers, memory);
        registers.pc.set(addr);
        Ok(())
    }
}

/// Return from subroutine: pulls an address and continues after it.
#[derive(Debug)]
pub struct Rts;

impl Op for Rts {
    open spec fn accepts(&self, mode: AddressingMode) -> bool {
        true
    }

    open spec fn effect(&self, mode: AddressingMode, r: CpuRegisters, m: MemoryView) -> Effect {
        let s = pulled_u16(r, m);
        Some((s.0.with_pc(add16(s.1 as int, 1)), m))
    }

    fn call(&self, mode: AddressingMode, registers: &mut CpuRegisters, memory: &mut Memory) -> (res: Result<(), BusError>) {
        let addr = stack_pop_u16(registers, memory);
        registers.pc.set(addr.wrapping_add(1));
        Ok(())
    }
}

/// Registers and bus after a break: the program counter, then the flags with
/// both reserved bits set, are pushed; the counter is loaded from the break
/// vector and the break is recorded.
pub open spec fn break_effect(r: CpuRegisters, m: MemoryView) -> (CpuRegisters, MemoryView) {
    let s1 = pushed_u16(r, m, r.pc.value);
    let s2 = pushed(s1.0, s1.1, pushed_flags(r.p));
    (s2.0.with_pc(s2.1.read_u16(BRK_VECTOR)).with_p(StatusRegister { break_state: true, ..r.p }), s2.1)
}

/// Break.
#[derive(Debug)]
pub struct Brk;

impl Op for Brk {
    open spec fn accepts(&self, mode: AddressingMode) -> bool {
        true
    }

    open spec fn effect(&self, mode: AddressingMode, r: CpuRegisters, m: MemoryView) -> Effect {
        Some(break_effect(r, m))
    }

    fn call(&self, mode: AddressingMode, registers: &mut CpuRegisters, memory: &mut Memory) -> (res: Result<(), BusError>) {
        let pc = registers.pc.value;
        stack_push_u16(registers, memory, pc);
        let status = registers.p.to_byte() | BREAK_FLAG;
        stack_push(registers, memory, status);
        let target = memory.read_u16(BRK_VECTOR);
        registers.pc.set(target);
        registers.p.set_break(true);
        Ok(())
    }
}

/// Return from interrupt: pulls the flags (reserved bits ignored), then the
/// program counter.
#[derive(Debug)]
pub struct Rti;

impl Op for Rti {
    open spec fn accepts(&self, mode: AddressingMode) -> bool {
        true
    }

    open spec fn effect(&self, mode: AddressingMode, r: CpuRegisters, m: MemoryView) -> Effect {
        let s1 = pulled(r, m);
        let s2 = pulled_u16(s1.0, m);
        Some((s2.0.with_p(StatusRegister::unpacked(s1.1)).with_pc(s2.1), m))
    }

    fn call(&self, mode: AddressingMode, registers: &mut CpuRegisters, memory: &mut Memory) -> (res: Result<(), BusError>) {
        let status = stack_pop(registers, memory);
        let pc = stack_pop_u16(registers, memory);
        registers.p = StatusRegister::from_byte(status);
        registers.pc.set(pc);
        Ok(())
    }
}

/// No operation.
#[derive(Debug)]
pub struct Nop;

impl Op for Nop {
    open spec fn accepts(&self, mode: AddressingMode) -> bool {
        true
    }

    open spec fn effect(&self, mode: AddressingMode, r: CpuRegisters, m: MemoryView) -> Effect {
        Some((r, m))
    }

    fn call(&self, mode: AddressingMode, registers: &mut CpuRegisters, memory: &mut Memory) -> (res: Result<(), BusError>) {
        Ok(())
    }
}

} // verus!
