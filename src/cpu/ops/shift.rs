//! Shifts and rotations of the accumulator or of a memory byte.
use vstd::prelude::*;
use crate::cpu::memory::{BusError, Memory, MemoryView};
use crate::cpu::register::{CpuRegisters, StatusRegister};
use super::{AddressingMode, Effect, Op, operand, operand_value, write_back, write_back_effect};

verus! {

/// Flags after a shift that produced `res` and shifted out `carry`.
pub open spec fn shift_flags(p: StatusRegister, res: u8, carry: bool) -> StatusRegister {
    StatusRegister { carry, ..p.with_nz(res) }
}

pub open spec fn asl_result(v: u8) -> u8 {
    v << 1u8
}

pub open spec fn lsr_result(v: u8) -> u8 {
    v >> 1u8
}

/// Rotate left: the previous carry enters bit 0.
pub open spec fn rol_result(v: u8, carry: bool) -> u8 {
    (v << 1u8) | if carry { 0x01u8 } else { 0u8 }
}

/// Rotate right: the previous carry enters bit 7.
pub open spec fn ror_result(v: u8, carry: bool) -> u8 {
    (v >> 1u8) | if carry { 0x80u8 } else { 0u8 }
}

fn flags_after(p: StatusRegister, res: u8, carry: bool) -> (r: StatusRegister)
    ensures
        r == shift_flags(p, res, carry),
{
    let mut q = p;
    q.update_for_value(res);
    q.set_carry(carry);
    q
}

/// Arithmetic shift left.
#[derive(Debug)]
pub struct Asl;

impl Op for Asl {
    open spec fn accepts(&self, mode: AddressingMode) -> bool {
        mode.has_operand()
    }

    open spec fn effect(&self, mode: AddressingMode, r: CpuRegisters, m: MemoryView) -> Effect {
        let v = operand_value(mode, r, m);
        let res = asl_result(v);
        write_back_effect(mode, r, m, res, shift_flags(r.p, res, v & 0x80 != 0))
    }

    fn call(&self, mode: AddressingMode, registers: &mut CpuRegisters, memory: &mut Memory) -> (res: Result<(), BusError>) {
        let value = operand(mode, registers, memory);
        let result = value << 1u8;
        let p = flags_after(registers.p, result, value & 0x80 != 0);
        write_back(mode, registers, memory, result, p)
    }
}

/// Logical shift right.
#[derive(Debug)]
pub struct Lsr;

impl Op for Lsr {
    open spec fn accepts(&self, mode: AddressingMode) -> bool {
        mode.has_operand()
    }

    open spec fn effect(&self, mode: AddressingMode, r: CpuRegisters, m: MemoryView) -> Effect {
        let v = operand_value(mode, r, m);
        let res = lsr_result(v);
        write_back_effect(mode, r, m, res, shift_flags(r.p, res, v & 0x01 != 0))
    }

    fn call(&self, mode: AddressingMode, registers: &mut CpuRegisters, memory: &mut Memory) -> (res: Result<(), BusError>) {
        let value = operand(mode, registers, memory);
        let result = value >> 1u8;
        let p = flags_after(registers.p, result, value & 0x01 != 0);
        write_back(mode, registers, memory, result, p)
    }
}

/// Rotate left through the carry.
#[derive(Debug)]
pub struct Rol;

impl Op for Rol {
    open spec fn accepts(&self, mode: AddressingMode) -> bool {
        mode.has_operand()
    }

    open spec fn effect(&self, mode: AddressingMode, r: CpuRegisters, m: MemoryView) -> Effect {
        let v = operand_value(mode, r, m);
        let res = rol_result(v, r.p.carry);
        write_back_effect(mode, r, m, res, shift_flags(r.p, res, v & 0x80 != 0))
    }

    fn call(&self, mode: AddressingMode, registers: &mut CpuRegisters, memory: &mut Memory) -> (res: Result<(), BusError>) {
        let value = operand(mode, registers, memory);
        let result = (value << 1u8) | if registers.p.has_carry() { 0x01u8 } else { 0u8 };
        let p = flags_after(registers.p, result, value & 0x80 != 0);
        write_back(mode, registers, memory, result, p)
    }
}

/// Rotate right through the carry.
#[derive(Debug)]
pub struct Ror;

impl Op for Ror {
    open spec fn accepts(&self, mode: AddressingMode) -> bool {
        mode.has_operand()
    }

    open spec fn effect(&self, mode: AddressingMode, r: CpuRegisters, m: MemoryView) -> Effect {
        let v = operand_value(mode, r, m);
        let res = ror_result(v, r.p.carry);
        write_back_effect(mode, r, m, res, shift_flags(r.p, res, v & 0x01 != 0))
    }

    fn call(&self, mode: AddressingMode, registers: &mut CpuRegisters, memory: &mut Memory) -> (res: Result<(), BusError>) {
        let value = operand(mode, registers, memory);
        let result = (value >> 1u8) | if registers.p.has_carry() { 0x80u8 } else { 0u8 };
        let p = flags_after(registers.p, result, value & 0x01 != 0);
        write_back(mode, registers, memory, result, p)
    }
}

} // verus!
