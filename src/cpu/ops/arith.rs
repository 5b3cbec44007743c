//! Add and subtract with carry, and the compare family.
use vstd::prelude::*;
use crate::cpu::memory::{BusError, Memory, MemoryView};
use crate::cpu::register::{CpuRegisters, StatusRegister};
use super::{AddressingMode, Effect, Op, add8, operand, operand_value};

verus! {

/// The unsigned sum `a + v + carry`, before truncation.
pub open spec fn carry_sum(a: u8, v: u8, carry: bool) -> int {
    a + v + if carry { 1int } else { 0int }
}

/// The accumulator after an add with carry.
pub open spec fn adc_result(a: u8, v: u8, carry: bool) -> u8 {
    (carry_sum(a, v, carry) % 256) as u8
}

/// Flags after adding `v` and the carry to the accumulator `a`: carry on
/// unsigned overflow, overflow when both inputs share a sign the result lacks.
pub open spec fn adc_flags(p: StatusRegister, a: u8, v: u8) -> StatusRegister {
    let res = adc_result(a, v, p.carry);
    StatusRegister {
        carry: carry_sum(a, v, p.carry) > 255,
        overflow: (a ^ res) & (v ^ res) & 0x80 != 0,
        ..p.with_nz(res)
    }
}

/// Registers after adding `v` with carry into the accumulator.
pub open spec fn add_into_a(r: CpuRegisters, v: u8) -> CpuRegisters {
    r.with_a(adc_result(r.a.value, v, r.p.carry)).with_p(adc_flags(r.p, r.a.value, v))
}

fn add_with_carry(registers: &mut CpuRegisters, value: u8)
    ensures
        *final(registers) == add_into_a(*old(registers), value),
{
    let a = registers.a.value;
    let carry_in: u16 = if registers.p.has_carry() { 1 } else { 0 };
    let sum: u16 = a as u16 + value as u16 + carry_in;
    let result = (sum % 256) as u8;
    registers.p.set_carry(sum > 255);
    registers.p.update_for_value(result);
    registers.p.set_overflow((a ^ result) & (value ^ result) & 0x80 != 0);
    registers.a.set(result);
}

/// Flags after comparing register value `reg` with `v`.
pub open spec fn compare_flags(p: StatusRegister, reg: u8, v: u8) -> StatusRegister {
    StatusRegister { carry: reg >= v, ..p.with_nz(((reg - v + 256) % 256) as u8) }
}

fn compare(registers: &mut CpuRegisters, reg: u8, value: u8)
    ensures
        *final(registers) == old(registers).with_p(compare_flags(old(registers).p, reg, value)),
{
    let result = reg.wrapping_sub(value);
    registers.p.set_carry(reg >= value);
    registers.p.update_for_value(result);
}

/// Add with carry.
#[derive(Debug)]
pub struct Adc;

impl Op for Adc {
    open spec fn accepts(&self, mode: AddressingMode) -> bool {
        mode.has_operand()
    }

    open spec fn effect(&self, mode: AddressingMode, r: CpuRegisters, m: MemoryView) -> Effect {
        Some((add_into_a(r, operand_value(mode, r, m)), m))
    }

    fn call(&self, mode: AddressingMode, registers: &mut CpuRegisters, memory: &mut Memory) -> (res: Result<(), BusError>) {
        let value = operand(mode, registers, memory);
        add_with_carry(registers, value);
        Ok(())
    }
}

/// Subtract with carry: adds the one's complement of the operand.
#[derive(Debug)]
pub struct Sbc;

impl Op for Sbc {
    open spec fn accepts(&self, mode: AddressingMode) -> bool {
        mode.has_operand()
    }

    open spec fn effect(&self, mode: AddressingMode, r: CpuRegisters, m: MemoryView) -> Effect {
        Some((add_into_a(r, operand_value(mode, r, m) ^ 0xFF), m))
    }

    fn call(&self, mode: AddressingMode, registers: &mut CpuRegisters, memory: &mut Memory) -> (res: Result<(), BusError>) {
        let value = operand(mode, registers, memory);
        add_with_carry(registers, value ^ 0xFF);
        Ok(())
    }
}

/// Compare accumulator.
#[derive(Debug)]
pub struct Cmp;

impl Op for Cmp {
    open spec fn accepts(&self, mode: AddressingMode) -> bool {
        mode.has_operand()
    }

    open spec fn effect(&self, mode: AddressingMode, r: CpuRegisters, m: MemoryView) -> Effect {
        Some((r.with_p(compare_flags(r.p, r.a.value, operand_value(mode, r, m))), m))
    }

    fn call(&self, mode: AddressingMode, registers: &mut CpuRegisters, memory: &mut Memory) -> (res: Result<(), BusError>) {
        let value = operand(mode, registers, memory);
        let reg = registers.a.value;
        compare(registers, reg, value);
        Ok(())
    }
}

/// Compare X.
#[derive(Debug)]
pub struct Cpx;

impl Op for Cpx {
    open spec fn accepts(&self, mode: AddressingMode) -> bool {
        mode.has_operand()
    }

    open spec fn effect(&self, mode: AddressingMode, r: CpuRegisters, m: MemoryView) -> Effect {
        Some((r.with_p(compare_flags(r.p, r.x.value, operand_value(mode, r, m))), m))
    }

    fn call(&self, mode: AddressingMode, registers: &mut CpuRegisters, memory: &mut Memory) -> (res: Result<(), BusError>) {
        let value = operand(mode, registers, memory);
        let reg = registers.x.value;
        compare(registers, reg, value);
        Ok(())
    }
}

/// Compare Y.
#[derive(Debug)]
pub struct Cpy;

impl Op for Cpy {
    open spec fn accepts(&self, mode: AddressingMode) -> bool {
        mode.has_operand()
    }

    open spec fn effect(&self, mode: AddressingMode, r: CpuRegisters, m: MemoryView) -> Effect {
        Some((r.with_p(compare_flags(r.p, r.y.value, operand_value(mode, r, m))), m))
    }

    fn call(&self, mode: AddressingMode, registers: &mut CpuRegisters, memory: &mut Memory) -> (res: Result<(), BusError>) {
        let value = operand(mode, registers, memory);
        let reg = registers.y.value;
        compare(registers, reg, value);
        Ok(())
    }
}

/// The one's complement of a byte is 255 minus it.
pub proof fn lemma_complement(v: u8)
    ensures
        v ^ 0xFF == 255 - v,
{
    assert(v ^ 0xFF == 255 - v) by (bit_vector);
}

/// Subtracting with carry right after adding the same memory operand with
/// carry leaves the accumulator at `a + c_in + c_out - 1` (modulo 256),
/// where `c_in` is the carry going into the addition and `c_out` the one it
/// produced and hands to the subtraction. So the accumulator is restored
/// exactly when the addition changed the carry.
pub proof fn lemma_adc_then_sbc(mode: AddressingMode, r: CpuRegisters, m: MemoryView)
    requires
        m.wf(),
        mode.has_address(),
    ensures
        match Adc.effect(mode, r, m) {
            Some(s1) => match Sbc.effect(mode, s1.0, s1.1) {
                Some(s2) => {
                    &&& s2.0.a.value == add8(
                        r.a.value + (if r.p.carry { 1int } else { 0int }) + (if s1.0.p.carry { 1int } else { 0int }),
                        255,
                    )
                    &&& (s1.0.p.carry != r.p.carry ==> s2.0.a.value == r.a.value)
                },
                None => false,
            },
            None => false,
        },
{
    let v = operand_value(mode, r, m);
    let s1 = Adc.effect(mode, r, m)->Some_0;
    assert(operand_value(mode, s1.0, s1.1) == v);
    lemma_complement(v);
}

} // verus!
