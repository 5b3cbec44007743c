//! Loads into and stores from the accumulator and the index registers.
use vstd::prelude::*;
use crate::cpu::memory::{BusError, Memory, MemoryView};
use crate::cpu::register::CpuRegisters;
use super::{AddressingMode, Effect, Op, operand, operand_addr, operand_address, operand_value};

verus! {

/// Registers and bus after a store of `v` at the mode's effective address.
pub open spec fn store_effect(mode: AddressingMode, r: CpuRegisters, m: MemoryView, v: u8) -> Effect {
    let addr = operand_address(mode, r, m);
    if MemoryView::writable(addr) {
        Some((r, m.write(addr, v)))
    } else {
        None
    }
}

fn store(mode: AddressingMode, registers: &CpuRegisters, memory: &mut Memory, v: u8) -> (res: Result<(), BusError>)
    requires
        old(memory).wf(),
        mode.has_address(),
    ensures
        final(memory).wf(),
        match store_effect(mode, *registers, old(memory)@, v) {
            Some(s) => res is Ok && final(memory)@ == s.1,
            None => res == Err::<(), BusError>(BusError::ReadOnly(operand_address(mode, *registers, old(memory)@)))
                && final(memory)@ == old(memory)@,
        },
{
    let addr = operand_addr(mode, registers, memory);
    memory.write(addr, v)
}

/// Load accumulator.
#[derive(Debug)]
pub struct Lda;

impl Op for Lda {
    open spec fn accepts(&self, mode: AddressingMode) -> bool {
        mode.has_operand()
    }

    open spec fn effect(&self, mode: AddressingMode, r: CpuRegisters, m: MemoryView) -> Effect {
        let v = operand_value(mode, r, m);
        Some((r.with_a(v).with_p(r.p.with_nz(v)), m))
    }

    fn call(&self, mode: AddressingMode, registers: &mut CpuRegisters, memory: &mut Memory) -> (res: Result<(), BusError>) {
        let value = operand(mode, registers, memory);
        registers.a.set(value);
        registers.p.update_for_value(value);
        Ok(())
    }
}

/// Load X.
#[derive(Debug)]
pub struct Ldx;

impl Op for Ldx {
    open spec fn accepts(&self, mode: AddressingMode) -> bool {
        mode.has_operand()
    }

    open spec fn effect(&self, mode: AddressingMode, r: CpuRegisters, m: MemoryView) -> Effect {
        let v = operand_value(mode, r, m);
        Some((r.with_x(v).with_p(r.p.with_nz(v)), m))
    }

    fn call(&self, mode: AddressingMode, registers: &mut CpuRegisters, memory: &mut Memory) -> (res: Result<(), BusError>) {
        let value = operand(mode, registers, memory);
        registers.x.set(value);
        registers.p.update_for_value(value);
        Ok(())
    }
}

/// Load Y.
#[derive(Debug)]
pub struct Ldy;

impl Op for Ldy {
    open spec fn accepts(&self, mode: AddressingMode) -> bool {
        mode.has_operand()
    }

    open spec fn effect(&self, mode: AddressingMode, r: CpuRegisters, m: MemoryView) -> Effect {
        let v = operand_value(mode, r, m);
        Some((r.with_y(v).with_p(r.p.with_nz(v)), m))
    }

    fn call(&self, mode: AddressingMode, registers: &mut CpuRegisters, memory: &mut Memory) -> (res: Result<(), BusError>) {
        let value = operand(mode, registers, memory);
        registers.y.set(value);
        registers.p.update_for_value(value);
        Ok(())
    }
}

/// Store accumulator.
#[derive(Debug)]
pub struct Sta;

impl Op for Sta {
    open spec fn accepts(&self, mode: AddressingMode) -> bool {
        mode.has_address()
    }

    open spec fn effect(&self, mode: AddressingMode, r: CpuRegisters, m: MemoryView) -> Effect {
        store_effect(mode, r, m, r.a.value)
    }

    fn call(&self, mode: AddressingMode, registers: &mut CpuRegisters, memory: &mut Memory) -> (res: Result<(), BusError>) {
        store(mode, registers, memory, registers.a.value)
    }
}

/// Store X.
#[derive(Debug)]
pub struct Stx;

impl Op for Stx {
    open spec fn accepts(&self, mode: AddressingMode) -> bool {
        mode.has_address()
    }

    open spec fn effect(&self, mode: AddressingMode, r: CpuRegisters, m: MemoryView) -> Effect {
        store_effect(mode, r, m, r.x.value)
    }

    fn call(&self, mode: AddressingMode, registers: &mut CpuRegisters, memory: &mut Memory) -> (res: Result<(), BusError>) {
        store(mode, registers, memory, registers.x.value)
    }
}

/// Store Y.
#[derive(Debug)]
pub struct Sty;

impl Op for Sty {
    open spec fn accepts(&self, mode: AddressingMode) -> bool {
        mode.has_address()
    }

    open spec fn effect(&self, mode: AddressingMode, r: CpuRegisters, m: MemoryView) -> Effect {
        store_effect(mode, r, m, r.y.value)
    }

    fn call(&self, mode: AddressingMode, registers: &mut CpuRegisters, memory: &mut Memory) -> (res: Result<(), BusError>) {
        store(mode, registers, memory, registers.y.value)
    }
}

} // verus!
