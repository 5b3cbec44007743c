//! Instructions that set or clear a single flag.
use vstd::prelude::*;
use crate::cpu::memory::{BusError, Memory, MemoryView};
use crate::cpu::register::{CpuRegisters, StatusRegister};
use super::{AddressingMode, Effect, Op};

verus! {

/// Clear carry.
#[derive(Debug)]
pub struct Clc;

impl Op for Clc {
    open spec fn accepts(&self, mode: AddressingMode) -> bool {
        true
    }

    open spec fn effect(&self, mode: AddressingMode, r: CpuRegisters, m: MemoryView) -> Effect {
        Some((r.with_p(StatusRegister { carry: false, ..r.p }), m))
    }

    fn call(&self, mode: AddressingMode, registers: &mut CpuRegisters, memory: &mut Memory) -> (res: Result<(), BusError>) {
        registers.p.set_carry(false);
        Ok(())
    }
}

/// Clear decimal mode.
#[derive(Debug)]
pub struct Cld;

impl Op for Cld {
    open spec fn accepts(&self, mode: AddressingMode) -> bool {
        true
    }

    open spec fn effect(&self, mode: AddressingMode, r: CpuRegisters, m: MemoryView) -> Effect {
        Some((r.with_p(StatusRegister { decimal_mode: false, ..r.p }), m))
    }

    fn call(&self, mode: AddressingMode, registers: &mut CpuRegisters, memory: &mut Memory) -> (res: Result<(), BusError>) {
        registers.p.set_decimal_mode(false);
        Ok(())
    }
}

/// Clear interrupt disable.
#[derive(Debug)]
pub struct Cli;

impl Op for Cli {
    open spec fn accepts(&self, mode: AddressingMode) -> bool {
        true
    }

    open spec fn effect(&self, mode: AddressingMode, r: CpuRegisters, m: MemoryView) -> Effect {
        Some((r.with_p(StatusRegister { interrupt_disable: false, ..r.p }), m))
    }

    fn call(&self, mode: AddressingMode, registers: &mut CpuRegisters, memory: &mut Memory) -> (res: Result<(), BusError>) {
        registers.p.set_interrupt_disable(false);
        Ok(())
    }
}

/// Clear overflow.
#[derive(Debug)]
pub struct Clv;

impl Op for Clv {
    open spec fn accepts(&self, mode: AddressingMode) -> bool {
        true
    }

    open spec fn effect(&self, mode: AddressingMode, r: CpuRegisters, m: MemoryView) -> Effect {
        Some((r.with_p(StatusRegister { overflow: false, ..r.p }), m))
    }

    fn call(&self, mode: AddressingMode, registers: &mut CpuRegisters, memory: &mut Memory) -> (res: Result<(), BusError>) {
        registers.p.set_overflow(false);
        Ok(())
    }
}

/// Set carry.
#[derive(Debug)]
pub struct Sec;

impl Op for Sec {
    open spec fn accepts(&self, mode: AddressingMode) -> bool {
        true
    }

    open spec fn effect(&self, mode: AddressingMode, r: CpuRegisters, m: MemoryView) -> Effect {
        Some((r.with_p(StatusRegister { carry: true, ..r.p }), m))
    }

    fn call(&self, mode: AddressingMode, registers: &mut CpuRegisters, memory: &mut Memory) -> (res: Result<(), BusError>) {
        registers.p.set_carry(true);
        Ok(())
    }
}

/// Set decimal mode.
#[derive(Debug)]
pub struct Sed;

impl Op for Sed {
    open spec fn accepts(&self, mode: AddressingMode) -> bool {
        true
    }

    open spec fn effect(&self, mode: AddressingMode, r: CpuRegisters, m: MemoryView) -> Effect {
        Some((r.with_p(StatusRegister { decimal_mode: true, ..r.p }), m))
    }

    fn call(&self, mode: AddressingMode, registers: &mut CpuRegisters, memory: &mut Memory) -> (res: Result<(), BusError>) {
        registers.p.set_decimal_mode(true);
        Ok(())
    }
}

/// Set interrupt disable.
#[derive(Debug)]
pub struct Sei;

impl Op for Sei {
    open spec fn accepts(&self, mode: AddressingMode) -> bool {
        true
    }

    open spec fn effect(&self, mode: AddressingMode, r: CpuRegisters, m: MemoryView) -> Effect {
        Some((r.with_p(StatusRegister { interrupt_disable: true, ..r.p }), m))
    }

    fn call(&self, mode: AddressingMode, registers: &mut CpuRegisters, memory: &mut Memory) -> (res: Result<(), BusError>) {
        registers.p.set_interrupt_disable(true);
        Ok(())
    }
}

} // verus!
