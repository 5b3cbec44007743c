//! Transfers between the accumulator, the index registers and the stack
//! pointer.
use vstd::prelude::*;
use crate::cpu::memory::{BusError, Memory, MemoryView};
use crate::cpu::register::CpuRegisters;
use super::{AddressingMode, Effect, Op};

verus! {

/// Transfer accumulator to X.
#[derive(Debug)]
pub struct Tax;

impl Op for Tax {
    open spec fn accepts(&self, mode: AddressingMode) -> bool {
        true
    }

    open spec fn effect(&self, mode: AddressingMode, r: CpuRegisters, m: MemoryView) -> Effect {
        Some((r.with_x(r.a.value).with_p(r.p.with_nz(r.a.value)), m))
    }

    fn call(&self, mode: AddressingMode, registers: &mut CpuRegisters, memory: &mut Memory) -> (res: Result<(), BusError>) {
        let value = registers.a.value;
        registers.x.set(value);
        registers.p.update_for_value(value);
        Ok(())
    }
}

/// Transfer accumulator to Y.
#[derive(Debug)]
pub struct Tay;

impl Op for Tay {
    open spec fn accepts(&self, mode: AddressingMode) -> bool {
        true
    }

    open spec fn effect(&self, mode: AddressingMode, r: CpuRegisters, m: MemoryView) -> Effect {
        Some((r.with_y(r.a.value).with_p(r.p.with_nz(r.a.value)), m))
    }

    fn call(&self, mode: AddressingMode, registers: &mut CpuRegisters, memory: &mut Memory) -> (res: Result<(), BusError>) {
        let value = registers.a.value;
        registers.y.set(value);
        registers.p.update_for_value(value);
        Ok(())
    }
}

/// Transfer X to accumulator.
#[derive(Debug)]
pub struct Txa;

impl Op for Txa {
    open spec fn accepts(&self, mode: AddressingMode) -> bool {
        true
    }

    open spec fn effect(&self, mode: AddressingMode, r: CpuRegisters, m: MemoryView) -> Effect {
        Some((r.with_a(r.x.value).with_p(r.p.with_nz(r.x.value)), m))
    }

    fn call(&self, mode: AddressingMode, registers: &mut CpuRegisters, memory: &mut Memory) -> (res: Result<(), BusError>) {
        let value = registers.x.value;
        registers.a.set(value);
        registers.p.update_for_value(value);
        Ok(())
    }
}

/// Transfer Y to accumulator.
#[derive(Debug)]
pub struct Tya;

impl Op for Tya {
    open spec fn accepts(&self, mode: AddressingMode) -> bool {
        true
    }

    open spec fn effect(&self, mode: AddressingMode, r: CpuRegisters, m: MemoryView) -> Effect {
        Some((r.with_a(r.y.value).with_p(r.p.with_nz(r.y.value)), m))
    }

    fn call(&self, mode: AddressingMode, registers: &mut CpuRegisters, memory: &mut Memory) -> (res: Result<(), BusError>) {
        let value = registers.y.value;
        registers.a.set(value);
        registers.p.update_for_value(value);
        Ok(())
    }
}

/// Transfer stack pointer to X.
#[derive(Debug)]
pub struct Tsx;

impl Op for Tsx {
    open spec fn accepts(&self, mode: AddressingMode) -> bool {
        true
    }

    open spec fn effect(&self, mode: AddressingMode, r: CpuRegisters, m: MemoryView) -> Effect {
        Some((r.with_x(r.sp.value).with_p(r.p.with_nz(r.sp.value)), m))
    }

    fn call(&self, mode: AddressingMode, registers: &mut CpuRegisters, memory: &mut Memory) -> (res: Result<(), BusError>) {
        let value = registers.sp.value;
        registers.x.set(value);
        registers.p.update_for_value(value);
        Ok(())
    }
}

/// Transfer X to stack pointer; no flag changes.
#[derive(Debug)]
pub struct Txs;

impl Op for Txs {
    open spec fn accepts(&self, mode: AddressingMode) -> bool {
        true
    }

    open spec fn effect(&self, mode: AddressingMode, r: CpuRegisters, m: MemoryView) -> Effect {
        Some((r.with_sp(r.x.value), m))
    }

    fn call(&self, mode: AddressingMode, registers: &mut CpuRegisters, memory: &mut Memory) -> (res: Result<(), BusError>) {
        let value = registers.x.value;
        registers.sp.set(value);
        Ok(())
    }
}

} // verus!
