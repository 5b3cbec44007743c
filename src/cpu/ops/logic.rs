//! Bitwise operations on the accumulator, and the bit test.
use vstd::prelude::*;
use crate::cpu::memory::{BusError, Memory, MemoryView};
use crate::cpu::register::{CpuRegisters, StatusRegister};
use super::{AddressingMode, Effect, Op, operand, operand_value};

verus! {

/// Bitwise and into the accumulator.
#[derive(Debug)]
pub struct And;

impl Op for And {
    open spec fn accepts(&self, mode: AddressingMode) -> bool {
        mode.has_operand()
    }

    open spec fn effect(&self, mode: AddressingMode, r: CpuRegisters, m: MemoryView) -> Effect {
        let res = r.a.value & operand_value(mode, r, m);
        Some((r.with_a(res).with_p(r.p.with_nz(res)), m))
    }

    fn call(&self, mode: AddressingMode, registers: &mut CpuRegisters, memory: &mut Memory) -> (res: Result<(), BusError>) {
        let value = operand(mode, registers, memory);
        let result = registers.a.value & value;
        registers.a.set(result);
        registers.p.update_for_value(result);
        Ok(())
    }
}

/// Bitwise or into the accumulator.
#[derive(Debug)]
pub struct Ora;

impl Op for Ora {
    open spec fn accepts(&self, mode: AddressingMode) -> bool {
        mode.has_operand()
    }

    open spec fn effect(&self, mode: AddressingMode, r: CpuRegisters, m: MemoryView) -> Effect {
        let res = r.a.value | operand_value(mode, r, m);
        Some((r.with_a(res).with_p(r.p.with_nz(res)), m))
    }

    fn call(&self, mode: AddressingMode, registers: &mut CpuRegisters, memory: &mut Memory) -> (res: Result<(), BusError>) {
        let value = operand(mode, registers, memory);
        let result = registers.a.value | value;
        registers.a.set(result);
        registers.p.update_for_value(result);
        Ok(())
    }
}

/// Bitwise exclusive or into the accumulator.
#[derive(Debug)]
pub struct Eor;

impl Op for Eor {
    open spec fn accepts(&self, mode: AddressingMode) -> bool {
        mode.has_operand()
    }

    open spec fn effect(&self, mode: AddressingMode, r: CpuRegisters, m: MemoryView) -> Effect {
        let res = r.a.value ^ operand_value(mode, r, m);
        Some((r.with_a(res).with_p(r.p.with_nz(res)), m))
    }

    fn call(&self, mode: AddressingMode, registers: &mut CpuRegisters, memory: &mut Memory) -> (res: Result<(), BusError>) {
        let value = operand(mode, registers, memory);
        let result = registers.a.value ^ value;
        registers.a.set(result);
        registers.p.update_for_value(result);
        Ok(())
    }
}

/// Flags after testing the accumulator `a` against the memory byte `v`:
/// zero from `a & v`, overflow and negative from bits 6 and 7 of `v`.
pub open spec fn bit_flags(p: StatusRegister, a: u8, v: u8) -> StatusRegister {
    StatusRegister { zero: a & v == 0, overflow: v & 0b0100_0000 != 0, negative: v & 0b1000_0000 != 0, ..p }
}

/// Bit test.
#[derive(Debug)]
pub struct Bit;

impl Op for Bit {
    open spec fn accepts(&self, mode: AddressingMode) -> bool {
        mode.has_operand()
    }

    open spec fn effect(&self, mode: AddressingMode, r: CpuRegisters, m: MemoryView) -> Effect {
        Some((r.with_p(bit_flags(r.p, r.a.value, operand_value(mode, r, m))), m))
    }

    fn call(&self, mode: AddressingMode, registers: &mut CpuRegisters, memory: &mut Memory) -> (res: Result<(), BusError>) {
        let value = operand(mode, registers, memory);
        let a = registers.a.value;
        registers.p.set_zero(a & value == 0);
        registers.p.set_overflow(value & 0b0100_0000 != 0);
        registers.p.set_negative(value & 0b1000_0000 != 0);
        Ok(())
    }
}

} // verus!
