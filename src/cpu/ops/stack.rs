//! Pushes and pulls of the accumulator and the flags.
use vstd::prelude::*;
use crate::cpu::memory::{BusError, Memory, MemoryView};
use crate::cpu::register::{BREAK_FLAG, CpuRegisters, StatusRegister};
use super::{AddressingMode, Effect, Op, pulled, pushed, stack_pop, stack_push};

verus! {

/// The byte the flags are pushed as: packed, both reserved bits set.
pub open spec fn pushed_flags(p: StatusRegister) -> u8 {
    p.packed() | BREAK_FLAG
}

/// Push accumulator.
#[derive(Debug)]
pub struct Pha;

impl Op for Pha {
    open spec fn accepts(&self, mode: AddressingMode) -> bool {
        true
    }

    open spec fn effect(&self, mode: AddressingMode, r: CpuRegisters, m: MemoryView) -> Effect {
        Some(pushed(r, m, r.a.value))
    }

    fn call(&self, mode: AddressingMode, registers: &mut CpuRegisters, memory: &mut Memory) -> (res: Result<(), BusError>) {
        let value = registers.a.value;
        stack_push(registers, memory, value);
        Ok(())
    }
}

/// Push flags, with both reserved bits set.
#[derive(Debug)]
pub struct Php;

impl Op for Php {
    open spec fn accepts(&self, mode: AddressingMode) -> bool {
        true
    }

    open spec fn effect(&self, mode: AddressingMode, r: CpuRegisters, m: MemoryView) -> Effect {
        Some(pushed(r, m, pushed_flags(r.p)))
    }

    fn call(&self, mode: AddressingMode, registers: &mut CpuRegisters, memory: &mut Memory) -> (res: Result<(), BusError>) {
        let value = registers.p.to_byte() | BREAK_FLAG;
        stack_push(registers, memory, value);
        Ok(())
    }
}

/// Pull accumulator.
#[derive(Debug)]
pub struct Pla;

impl Op for Pla {
    open spec fn accepts(&self, mode: AddressingMode) -> bool {
        true
    }

    open spec fn effect(&self, mode: AddressingMode, r: CpuRegisters, m: MemoryView) -> Effect {
        let (r1, v) = pulled(r, m);
        Some((r1.with_a(v).with_p(r1.p.with_nz(v)), m))
    }

    fn call(&self, mode: AddressingMode, registers: &mut CpuRegisters, memory: &mut Memory) -> (res: Result<(), BusError>) {
        let value = stack_pop(registers, memory);
        registers.a.set(value);
        registers.p.update_for_value(value);
        Ok(())
    }
}

/// Pull flags; the reserved bits of the pulled byte are ignored.
#[derive(Debug)]
pub struct Plp;

impl Op for Plp {
    open spec fn accepts(&self, mode: AddressingMode) -> bool {
        true
    }

    open spec fn effect(&self, mode: AddressingMode, r: CpuRegisters, m: MemoryView) -> Effect {
        let (r1, v) = pulled(r, m);
        Some((r1.with_p(StatusRegister::unpacked(v)), m))
    }

    fn call(&self, mode: AddressingMode, registers: &mut CpuRegisters, memory: &mut Memory) -> (res: Result<(), BusError>) {
        let value = stack_pop(registers, memory);
        registers.p = StatusRegister::from_byte(value);
        Ok(())
    }
}

} // verus!
