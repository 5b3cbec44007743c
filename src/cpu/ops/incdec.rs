//! Increments and decrements of a memory byte or an index register.
use vstd::prelude::*;
use crate::cpu::memory::{BusError, Memory, MemoryView};
use crate::cpu::register::CpuRegisters;
use super::{AddressingMode, Effect, Op, add8, operand, operand_value, write_back, write_back_effect};

verus! {

/// Increment a memory byte.
#[derive(Debug)]
pub struct Inc;

impl Op for Inc {
    open spec fn accepts(&self, mode: AddressingMode) -> bool {
        mode.has_address()
    }

    open spec fn effect(&self, mode: AddressingMode, r: CpuRegisters, m: MemoryView) -> Effect {
        let res = add8(operand_value(mode, r, m) as int, 1);
        write_back_effect(mode, r, m, res, r.p.with_nz(res))
    }

    fn call(&self, mode: AddressingMode, registers: &mut CpuRegisters, memory: &mut Memory) -> (res: Result<(), BusError>) {
        let value = operand(mode, registers, memory).wrapping_add(1);
        let mut p = registers.p;
        p.update_for_value(value);
        write_back(mode, registers, memory, value, p)
    }
}

/// Decrement a memory byte.
#[derive(Debug)]
pub struct Dec;

impl Op for Dec {
    open spec fn accepts(&self, mode: AddressingMode) -> bool {
        mode.has_address()
    }

    open spec fn effect(&self, mode: AddressingMode, r: CpuRegisters, m: MemoryView) -> Effect {
        let res = add8(operand_value(mode, r, m) as int, 255);
        write_back_effect(mode, r, m, res, r.p.with_nz(res))
    }

    fn call(&self, mode: AddressingMode, registers: &mut CpuRegisters, memory: &mut Memory) -> (res: Result<(), BusError>) {
        let value = operand(mode, registers, memory).wrapping_sub(1);
        let mut p = registers.p;
        p.update_for_value(value);
        write_back(mode, registers, memory, value, p)
    }
}

/// Increment X.
#[derive(Debug)]
pub struct Inx;

impl Op for Inx {
    open spec fn accepts(&self, mode: AddressingMode) -> bool {
        true
    }

    open spec fn effect(&self, mode: AddressingMode, r: CpuRegisters, m: MemoryView) -> Effect {
        let res = add8(r.x.value as int, 1);
        Some((r.with_x(res).with_p(r.p.with_nz(res)), m))
    }

    fn call(&self, mode: AddressingMode, registers: &mut CpuRegisters, memory: &mut Memory) -> (res: Result<(), BusError>) {
        let value = registers.x.value.wrapping_add(1);
        registers.x.set(value);
        registers.p.update_for_value(value);
        Ok(())
    }
}

/// Increment Y.
#[derive(Debug)]
pub struct Iny;

impl Op for Iny {
    open spec fn accepts(&self, mode: AddressingMode) -> bool {
        true
    }

    open spec fn effect(&self, mode: AddressingMode, r: CpuRegisters, m: MemoryView) -> Effect {
        let res = add8(r.y.value as int, 1);
        Some((r.with_y(res).with_p(r.p.with_nz(res)), m))
    }

    fn call(&self, mode: AddressingMode, registers: &mut CpuRegisters, memory: &mut Memory) -> (res: Result<(), BusError>) {
        let value = registers.y.value.wrapping_add(1);
        registers.y.set(value);
        registers.p.update_for_value(value);
        Ok(())
    }
}

/// Decrement X.
#[derive(Debug)]
pub struct Dex;

impl Op for Dex {
    open spec fn accepts(&self, mode: AddressingMode) -> bool {
        true
    }

    open spec fn effect(&self, mode: AddressingMode, r: CpuRegisters, m: MemoryView) -> Effect {
        let res = add8(r.x.value as int, 255);
        Some((r.with_x(res).with_p(r.p.with_nz(res)), m))
    }

    fn call(&self, mode: AddressingMode, registers: &mut CpuRegisters, memory: &mut Memory) -> (res: Result<(), BusError>) {
        let value = registers.x.value.wrapping_sub(1);
        registers.x.set(value);
        registers.p.update_for_value(value);
        Ok(())
    }
}

/// Decrement Y.
#[derive(Debug)]
pub struct Dey;

impl Op for Dey {
    open spec fn accepts(&self, mode: AddressingMode) -> bool {
        true
    }

    open spec fn effect(&self, mode: AddressingMode, r: CpuRegisters, m: MemoryView) -> Effect {
        let res = add8(r.y.value as int, 255);
        Some((r.with_y(res).with_p(r.p.with_nz(res)), m))
    }

    fn call(&self, mode: AddressingMode, registers: &mut CpuRegisters, memory: &mut Memory) -> (res: Result<(), BusError>) {
        let value = registers.y.value.wrapping_sub(1);
        registers.y.set(value);
        registers.p.update_for_value(value);
        Ok(())
    }
}

} // verus!
