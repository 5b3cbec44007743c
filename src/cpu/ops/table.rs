//! The dispatch table: which instruction and addressing mode each opcode
//! byte stands for.
use vstd::prelude::*;
use crate::cpu::memory::{BusError, Memory, MemoryView};
use crate::cpu::register::CpuRegisters;
use super::{AddressingMode, Effect, Op, operand_address};
use super::arith::{Adc, Cmp, Cpx, Cpy, Sbc};
use super::flags::{Clc, Cld, Cli, Clv, Sec, Sed, Sei};
use super::flow::{Bcc, Bcs, Beq, Bmi, Bne, Bpl, Bvc, Bvs, Brk, Jmp, Jsr, Nop, Rti, Rts};
use super::incdec::{Dec, Dex, Dey, Inc, Inx, Iny};
use super::load_store::{Lda, Ldx, Ldy, Sta, Stx, Sty};
use super::logic::{And, Bit, Eor, Ora};
use super::shift::{Asl, Lsr, Rol, Ror};
use super::stack::{Pha, Php, Pla, Plp};
use super::transfer::{Tax, Tay, Tsx, Txa, Txs, Tya};

verus! {

/// The instructions of the processor, one per mnemonic.
#[derive(Clone, Copy, Debug, PartialEq, Eq, Structural)]
pub enum Instruction {
    Adc,
    And,
    Asl,
    Bcc,
    Bcs,
    Beq,
    Bmi,
    Bne,
    Bpl,
    Bvc,
    Bvs,
    Bit,
    Brk,
    Clc,
    Cld,
    Cli,
    Clv,
    Sec,
    Sed,
    Sei,
    Cmp,
    Cpx,
    Cpy,
    Dec,
    Dex,
    Dey,
    Eor,
    Inc,
    Inx,
    Iny,
    Jmp,
    Jsr,
    Lda,
    Ldx,
    Ldy,
    Lsr,
    Nop,
    Ora,
    Pha,
    Php,
    Pla,
    Plp,
    Rol,
    Ror,
    Rti,
    Rts,
    Sbc,
    Sta,
    Stx,
    Sty,
    Tax,
    Tay,
    Tsx,
    Txa,
    Txs,
    Tya,
}

impl Op for Instruction {
    open spec fn accepts(&self, mode: AddressingMode) -> bool {
        match *self {
            Instruction::Adc => Adc.accepts(mode),
            Instruction::And => And.accepts(mode),
            Instruction::Asl => Asl.accepts(mode),
            Instruction::Bcc => Bcc.accepts(mode),
            Instruction::Bcs => Bcs.accepts(mode),
            Instruction::Beq => Beq.accepts(mode),
            Instruction::Bmi => Bmi.accepts(mode),
            Instruction::Bne => Bne.accepts(mode),
            Instruction::Bpl => Bpl.accepts(mode),
            Instruction::Bvc => Bvc.accepts(mode),
            Instruction::Bvs => Bvs.accepts(mode),
            Instruction::Bit => Bit.accepts(mode),
            Instruction::Brk => Brk.accepts(mode),
            Instruction::Clc => Clc.accepts(mode),
            Instruction::Cld => Cld.accepts(mode),
            Instruction::Cli => Cli.accepts(mode),
            Instruction::Clv => Clv.accepts(mode),
            Instruction::Sec => Sec.accepts(mode),
            Instruction::Sed => Sed.accepts(mode),
            Instruction::Sei => Sei.accepts(mode),
            Instruction::Cmp => Cmp.accepts(mode),
            Instruction::Cpx => Cpx.accepts(mode),
            Instruction::Cpy => Cpy.accepts(mode),
            Instruction::Dec => Dec.accepts(mode),
            Instruction::Dex => Dex.accepts(mode),
            Instruction::Dey => Dey.accepts(mode),
            Instruction::Eor => Eor.accepts(mode),
            Instruction::Inc => Inc.accepts(mode),
            Instruction::Inx => Inx.accepts(mode),
            Instruction::Iny => Iny.accepts(mode),
            Instruction::Jmp => Jmp.accepts(mode),
            Instruction::Jsr => Jsr.accepts(mode),
            Instruction::Lda => Lda.accepts(mode),
            Instruction::Ldx => Ldx.accepts(mode),
            Instruction::Ldy => Ldy.accepts(mode),
            Instruction::Lsr => Lsr.accepts(mode),
            Instruction::Nop => Nop.accepts(mode),
            Instruction::Ora => Ora.accepts(mode),
            Instruction::Pha => Pha.accepts(mode),
            Instruction::Php => Php.accepts(mode),
            Instruction::Pla => Pla.accepts(mode),
            Instruction::Plp => Plp.accepts(mode),
            Instruction::Rol => Rol.accepts(mode),
            Instruction::Ror => Ror.accepts(mode),
            Instruction::Rti => Rti.accepts(mode),
            Instruction::Rts => Rts.accepts(mode),
            Instruction::Sbc => Sbc.accepts(mode),
            Instruction::Sta => Sta.accepts(mode),
            Instruction::Stx => Stx.accepts(mode),
            Instruction::Sty => Sty.accepts(mode),
            Instruction::Tax => Tax.accepts(mode),
            Instruction::Tay => Tay.accepts(mode),
            Instruction::Tsx => Tsx.accepts(mode),
            Instruction::Txa => Txa.accepts(mode),
            Instruction::Txs => Txs.accepts(mode),
            Instruction::Tya => Tya.accepts(mode),
        }
    }

    #[verifier::opaque]
    open spec fn effect(&self, mode: AddressingMode, r: CpuRegisters, m: MemoryView) -> Effect {
        match *self {
            Instruction::Adc => Adc.effect(mode, r, m),
            Instruction::And => And.effect(mode, r, m),
            Instruction::Asl => Asl.effect(mode, r, m),
            Instruction::Bcc => Bcc.effect(mode, r, m),
            Instruction::Bcs => Bcs.effect(mode, r, m),
            Instruction::Beq => Beq.effect(mode, r, m),
            Instruction::Bmi => Bmi.effect(mode, r, m),
            Instruction::Bne => Bne.effect(mode, r, m),
            Instruction::Bpl => Bpl.effect(mode, r, m),
            Instruction::Bvc => Bvc.effect(mode, r, m),
            Instruction::Bvs => Bvs.effect(mode, r, m),
            Instruction::Bit => Bit.effect(mode, r, m),
            Instruction::Brk => Brk.effect(mode, r, m),
            Instruction::Clc => Clc.effect(mode, r, m),
            Instruction::Cld => Cld.effect(mode, r, m),
            Instruction::Cli => Cli.effect(mode, r, m),
            Instruction::Clv => Clv.effect(mode, r, m),
            Instruction::Sec => Sec.effect(mode, r, m),
            Instruction::Sed => Sed.effect(mode, r, m),
            Instruction::Sei => Sei.effect(mode, r, m),
            Instruction::Cmp => Cmp.effect(mode, r, m),
            Instruction::Cpx => Cpx.effect(mode, r, m),
            Instruction::Cpy => Cpy.effect(mode, r, m),
            Instruction::Dec => Dec.effect(mode, r, m),
            Instruction::Dex => Dex.effect(mode, r, m),
            Instruction::Dey => Dey.effect(mode, r, m),
            Instruction::Eor => Eor.effect(mode, r, m),
            Instruction::Inc => Inc.effect(mode, r, m),
            Instruction::Inx => Inx.effect(mode, r, m),
            Instruction::Iny => Iny.effect(mode, r, m),
            Instruction::Jmp => Jmp.effect(mode, r, m),
            Instruction::Jsr => Jsr.effect(mode, r, m),
            Instruction::Lda => Lda.effect(mode, r, m),
            Instruction::Ldx => Ldx.effect(mode, r, m),
            Instruction::Ldy => Ldy.effect(mode, r, m),
            Instruction::Lsr => Lsr.effect(mode, r, m),
            Instruction::Nop => Nop.effect(mode, r, m),
            Instruction::Ora => Ora.effect(mode, r, m),
            Instruction::Pha => Pha.effect(mode, r, m),
            Instruction::Php => Php.effect(mode, r, m),
            Instruction::Pla => Pla.effect(mode, r, m),
            Instruction::Plp => Plp.effect(mode, r, m),
            Instruction::Rol => Rol.effect(mode, r, m),
            Instruction::Ror => Ror.effect(mode, r, m),
            Instruction::Rti => Rti.effect(mode, r, m),
            Instruction::Rts => Rts.effect(mode, r, m),
            Instruction::Sbc => Sbc.effect(mode, r, m),
            Instruction::Sta => Sta.effect(mode, r, m),
            Instruction::Stx => Stx.effect(mode, r, m),
            Instruction::Sty => Sty.effect(mode, r, m),
            Instruction::Tax => Tax.effect(mode, r, m),
            Instruction::Tay => Tay.effect(mode, r, m),
            Instruction::Tsx => Tsx.effect(mode, r, m),
            Instruction::Txa => Txa.effect(mode, r, m),
            Instruction::Txs => Txs.effect(mode, r, m),
            Instruction::Tya => Tya.effect(mode, r, m),
        }
    }

    fn call(&self, mode: AddressingMode, registers: &mut CpuRegisters, memory: &mut Memory) -> (res: Result<(), BusError>) {
        proof {
            reveal(<Instruction as Op>::effect);
        }
        match *self {
            Instruction::Adc => Adc.call(mode, registers, memory),
            Instruction::And => And.call(mode, registers, memory),
            Instruction::Asl => Asl.call(mode, registers, memory),
            Instruction::Bcc => Bcc.call(mode, registers, memory),
            Instruction::Bcs => Bcs.call(mode, registers, memory),
            Instruction::Beq => Beq.call(mode, registers, memory),
            Instruction::Bmi => Bmi.call(mode, registers, memory),
            Instruction::Bne => Bne.call(mode, registers, memory),
            Instruction::Bpl => Bpl.call(mode, registers, memory),
            Instruction::Bvc => Bvc.call(mode, registers, memory),
            Instruction::Bvs => Bvs.call(mode, registers, memory),
            Instruction::Bit => Bit.call(mode, registers, memory),
            Instruction::Brk => Brk.call(mode, registers, memory),
            Instruction::Clc => Clc.call(mode, registers, memory),
            Instruction::Cld => Cld.call(mode, registers, memory),
            Instruction::Cli => Cli.call(mode, registers, memory),
            Instruction::Clv => Clv.call(mode, registers, memory),
            Instruction::Sec => Sec.call(mode, registers, memory),
            Instruction::Sed => Sed.call(mode, registers, memory),
            Instruction::Sei => Sei.call(mode, registers, memory),
            Instruction::Cmp => Cmp.call(mode, registers, memory),
            Instruction::Cpx => Cpx.call(mode, registers, memory),
            Instruction::Cpy => Cpy.call(mode, registers, memory),
            Instruction::Dec => Dec.call(mode, registers, memory),
            Instruction::Dex => Dex.call(mode, registers, memory),
            Instruction::Dey => Dey.call(mode, registers, memory),
            Instruction::Eor => Eor.call(mode, registers, memory),
            Instruction::Inc => Inc.call(mode, registers, memory),
            Instruction::Inx => Inx.call(mode, registers, memory),
            Instruction::Iny => Iny.call(mode, registers, memory),
            Instruction::Jmp => Jmp.call(mode, registers, memory),
            Instruction::Jsr => Jsr.call(mode, registers, memory),
            Instruction::Lda => Lda.call(mode, registers, memory),
            Instruction::Ldx => Ldx.call(mode, registers, memory),
            Instruction::Ldy => Ldy.call(mode, registers, memory),
            Instruction::Lsr => Lsr.call(mode, registers, memory),
            Instruction::Nop => Nop.call(mode, registers, memory),
            Instruction::Ora => Ora.call(mode, registers, memory),
            Instruction::Pha => Pha.call(mode, registers, memory),
            Instruction::Php => Php.call(mode, registers, memory),
            Instruction::Pla => Pla.call(mode, registers, memory),
            Instruction::Plp => Plp.call(mode, registers, memory),
            Instruction::Rol => Rol.call(mode, registers, memory),
            Instruction::Ror => Ror.call(mode, registers, memory),
            Instruction::Rti => Rti.call(mode, registers, memory),
            Instruction::Rts => Rts.call(mode, registers, memory),
            Instruction::Sbc => Sbc.call(mode, registers, memory),
            Instruction::Sta => Sta.call(mode, registers, memory),
            Instruction::Stx => Stx.call(mode, registers, memory),
            Instruction::Sty => Sty.call(mode, registers, memory),
            Instruction::Tax => Tax.call(mode, registers, memory),
            Instruction::Tay => Tay.call(mode, registers, memory),
            Instruction::Tsx => Tsx.call(mode, registers, memory),
            Instruction::Txa => Txa.call(mode, registers, memory),
            Instruction::Txs => Txs.call(mode, registers, memory),
            Instruction::Tya => Tya.call(mode, registers, memory),
        }
    }
}

/// One entry of the dispatch table.
#[derive(Clone, Copy, Debug, PartialEq, Eq, Structural)]
pub struct Opcode {
    pub opcode: u8,
    pub mode: AddressingMode,
    pub op: Instruction,
}

/// The addressing mode and instruction an opcode byte stands for, if any.
#[verifier::opaque]
pub open spec fn decoded(opcode: u8) -> Option<(AddressingMode, Instruction)> {
    match opcode {
        0x69u8 => Some((AddressingMode::Immediate, Instruction::Adc)),
        0x65u8 => Some((AddressingMode::ZeroPage, Instruction::Adc)),
        0x75u8 => Some((AddressingMode::ZeroPageX, Instruction::Adc)),
        0x6Du8 => Some((AddressingMode::Absolute, Instruction::Adc)),
        0x7Du8 => Some((AddressingMode::AbsoluteX, Instruction::Adc)),
        0x79u8 => Some((AddressingMode::AbsoluteY, Instruction::Adc)),
        0x61u8 => Some((AddressingMode::IndirectX, Instruction::Adc)),
        0x71u8 => Some((AddressingMode::IndirectY, Instruction::Adc)),
        0x29u8 => Some((AddressingMode::Immediate, Instruction::And)),
        0x25u8 => Some((AddressingMode::ZeroPage, Instruction::And)),
        0x35u8 => Some((AddressingMode::ZeroPageX, Instruction::And)),
        0x2Du8 => Some((AddressingMode::Absolute, Instruction::And)),
        0x3Du8 => Some((AddressingMode::AbsoluteX, Instruction::And)),
        0x39u8 => Some((AddressingMode::AbsoluteY, Instruction::And)),
        0x21u8 => Some((AddressingMode::IndirectX, Instruction::And)),
        0x31u8 => Some((AddressingMode::IndirectY, Instruction::And)),
        0x0Au8 => Some((AddressingMode::Accumulator, Instruction::Asl)),
        0x06u8 => Some((AddressingMode::ZeroPage, Instruction::Asl)),
        0x16u8 => Some((AddressingMode::ZeroPageX, Instruction::Asl)),
        0x0Eu8 => Some((AddressingMode::Absolute, Instruction::Asl)),
        0x1Eu8 => Some((AddressingMode::AbsoluteX, Instruction::Asl)),
        0x90u8 => Some((AddressingMode::Relative, Instruction::Bcc)),
        0xB0u8 => Some((AddressingMode::Relative, Instruction::Bcs)),
        0xF0u8 => Some((AddressingMode::Relative, Instruction::Beq)),
        0x30u8 => Some((AddressingMode::Relative, Instruction::Bmi)),
        0xD0u8 => Some((AddressingMode::Relative, Instruction::Bne)),
        0x10u8 => Some((AddressingMode::Relative, Instruction::Bpl)),
        0x50u8 => Some((AddressingMode::Relative, Instruction::Bvc)),
        0x70u8 => Some((AddressingMode::Relative, Instruction::Bvs)),
        0x24u8 => Some((AddressingMode::ZeroPage, Instruction::Bit)),
        0x2Cu8 => Some((AddressingMode::Absolute, Instruction::Bit)),
        0x00u8 => Some((AddressingMode::Implicit, Instruction::Brk)),
        0x18u8 => Some((AddressingMode::Implicit, Instruction::Clc)),
        0xD8u8 => Some((AddressingMode::Implicit, Instruction::Cld)),
        0x58u8 => Some((AddressingMode::Implicit, Instruction::Cli)),
        0xB8u8 => Some((AddressingMode::Implicit, Instruction::Clv)),
        0x38u8 => Some((AddressingMode::Implicit, Instruction::Sec)),
        0xF8u8 => Some((AddressingMode::Implicit, Instruction::Sed)),
        0x78u8 => Some((AddressingMode::Implicit, Instruction::Sei)),
        0xC9u8 => Some((AddressingMode::Immediate, Instruction::Cmp)),
        0xC5u8 => Some((AddressingMode::ZeroPage, Instruction::Cmp)),
        0xD5u8 => Some((AddressingMode::ZeroPageX, Instruction::Cmp)),
        0xCDu8 => Some((AddressingMode::Absolute, Instruction::Cmp)),
        0xDDu8 => Some((AddressingMode::AbsoluteX, Instruction::Cmp)),
        0xD9u8 => Some((AddressingMode::AbsoluteY, Instruction::Cmp)),
        0xC1u8 => Some((AddressingMode::IndirectX, Instruction::Cmp)),
        0xD1u8 => Some((AddressingMode::IndirectY, Instruction::Cmp)),
        0xE0u8 => Some((AddressingMode::Immediate, Instruction::Cpx)),
        0xE4u8 => Some((AddressingMode::ZeroPage, Instruction::Cpx)),
        0xECu8 => Some((AddressingMode::Absolute, Instruction::Cpx)),
        0xC0u8 => Some((AddressingMode::Immediate, Instruction::Cpy)),
        0xC4u8 => Some((AddressingMode::ZeroPage, Instruction::Cpy)),
        0xCCu8 => Some((AddressingMode::Absolute, Instruction::Cpy)),
        0xC6u8 => Some((AddressingMode::ZeroPage, Instruction::Dec)),
        0xD6u8 => Some((AddressingMode::ZeroPageX, Instruction::Dec)),
        0xCEu8 => Some((AddressingMode::Absolute, Instruction::Dec)),
        0xDEu8 => Some((AddressingMode::AbsoluteX, Instruction::Dec)),
        0xCAu8 => Some((AddressingMode::Implicit, Instruction::Dex)),
        0x88u8 => Some((AddressingMode::Implicit, Instruction::Dey)),
        0x49u8 => Some((AddressingMode::Immediate, Instruction::Eor)),
        0x45u8 => Some((AddressingMode::ZeroPage, Instruction::Eor)),
        0x55u8 => Some((AddressingMode::ZeroPageX, Instruction::Eor)),
        0x4Du8 => Some((AddressingMode::Absolute, Instruction::Eor)),
        0x5Du8 => Some((AddressingMode::AbsoluteX, Instruction::Eor)),
        0x59u8 => Some((AddressingMode::AbsoluteY, Instruction::Eor)),
        0x41u8 => Some((AddressingMode::IndirectX, Instruction::Eor)),
        0x51u8 => Some((AddressingMode::IndirectY, Instruction::Eor)),
        0xE6u8 => Some((AddressingMode::ZeroPage, Instruction::Inc)),
        0xF6u8 => Some((AddressingMode::ZeroPageX, Instruction::Inc)),
        0xEEu8 => Some((AddressingMode::Absolute, Instruction::Inc)),
        0xFEu8 => Some((AddressingMode::AbsoluteX, Instruction::Inc)),
        0xE8u8 => Some((AddressingMode::Implicit, Instruction::Inx)),
        0xC8u8 => Some((AddressingMode::Implicit, Instruction::Iny)),
        0x4Cu8 => Some((AddressingMode::Absolute, Instruction::Jmp)),
        0x6Cu8 => Some((AddressingMode::Indirect, Instruction::Jmp)),
        0x20u8 => Some((AddressingMode::Absolute, Instruction::Jsr)),
        0xA9u8 => Some((AddressingMode::Immediate, Instruction::Lda)),
        0xA5u8 => Some((AddressingMode::ZeroPage, Instruction::Lda)),
        0xB5u8 => Some((AddressingMode::ZeroPageX, Instruction::Lda)),
        0xADu8 => Some((AddressingMode::Absolute, Instruction::Lda)),
        0xBDu8 => Some((AddressingMode::AbsoluteX, Instruction::Lda)),
        0xB9u8 => Some((AddressingMode::AbsoluteY, Instruction::Lda)),
        0xA1u8 => Some((AddressingMode::IndirectX, Instruction::Lda)),
        0xB1u8 => Some((AddressingMode::IndirectY, Instruction::Lda)),
        0xA2u8 => Some((AddressingMode::Immediate, Instruction::Ldx)),
        0xA6u8 => Some((AddressingMode::ZeroPage, Instruction::Ldx)),
        0xB6u8 => Some((AddressingMode::ZeroPageY, Instruction::Ldx)),
        0xAEu8 => Some((AddressingMode::Absolute, Instruction::Ldx)),
        0xBEu8 => Some((AddressingMode::AbsoluteY, Instruction::Ldx)),
        0xA0u8 => Some((AddressingMode::Immediate, Instruction::Ldy)),
        0xA4u8 => Some((AddressingMode::ZeroPage, Instruction::Ldy)),
        0xB4u8 => Some((AddressingMode::ZeroPageX, Instruction::Ldy)),
        0xACu8 => Some((AddressingMode::Absolute, Instruction::Ldy)),
        0xBCu8 => Some((AddressingMode::AbsoluteX, Instruction::Ldy)),
        0x4Au8 => Some((AddressingMode::Accumulator, Instruction::Lsr)),
        0x46u8 => Some((AddressingMode::ZeroPage, Instruction::Lsr)),
        0x56u8 => Some((AddressingMode::ZeroPageX, Instruction::Lsr)),
        0x4Eu8 => Some((AddressingMode::Absolute, Instruction::Lsr)),
        0x5Eu8 => Some((AddressingMode::AbsoluteX, Instruction::Lsr)),
        0xEAu8 => Some((AddressingMode::Implicit, Instruction::Nop)),
        0x09u8 => Some((AddressingMode::Immediate, Instruction::Ora)),
        0x05u8 => Some((AddressingMode::ZeroPage, Instruction::Ora)),
        0x15u8 => Some((AddressingMode::ZeroPageX, Instruction::Ora)),
        0x0Du8 => Some((AddressingMode::Absolute, Instruction::Ora)),
        0x1Du8 => Some((AddressingMode::AbsoluteX, Instruction::Ora)),
        0x19u8 => Some((AddressingMode::AbsoluteY, Instruction::Ora)),
        0x01u8 => Some((AddressingMode::IndirectX, Instruction::Ora)),
        0x11u8 => Some((AddressingMode::IndirectY, Instruction::Ora)),
        0x48u8 => Some((AddressingMode::Implicit, Instruction::Pha)),
        0x08u8 => Some((AddressingMode::Implicit, Instruction::Php)),
        0x68u8 => Some((AddressingMode::Implicit, Instruction::Pla)),
        0x28u8 => Some((AddressingMode::Implicit, Instruction::Plp)),
        0x2Au8 => Some((AddressingMode::Accumulator, Instruction::Rol)),
        0x26u8 => Some((AddressingMode::ZeroPage, Instruction::Rol)),
        0x36u8 => Some((AddressingMode::ZeroPageX, Instruction::Rol)),
        0x2Eu8 => Some((AddressingMode::Absolute, Instruction::Rol)),
        0x3Eu8 => Some((AddressingMode::AbsoluteX, Instruction::Rol)),
        0x6Au8 => Some((AddressingMode::Accumulator, Instruction::Ror)),
        0x66u8 => Some((AddressingMode::ZeroPage, Instruction::Ror)),
        0x76u8 => Some((AddressingMode::ZeroPageX, Instruction::Ror)),
        0x6Eu8 => Some((AddressingMode::Absolute, Instruction::Ror)),
        0x7Eu8 => Some((AddressingMode::AbsoluteX, Instruction::Ror)),
        0x40u8 => Some((AddressingMode::Implicit, Instruction::Rti)),
        0x60u8 => Some((AddressingMode::Implicit, Instruction::Rts)),
        0xE9u8 => Some((AddressingMode::Immediate, Instruction::Sbc)),
        0xE5u8 => Some((AddressingMode::ZeroPage, Instruction::Sbc)),
        0xF5u8 => Some((AddressingMode::ZeroPageX, Instruction::Sbc)),
        0xEDu8 => Some((AddressingMode::Absolute, Instruction::Sbc)),
        0xFDu8 => Some((AddressingMode::AbsoluteX, Instruction::Sbc)),
        0xF9u8 => Some((AddressingMode::AbsoluteY, Instruction::Sbc)),
        0xE1u8 => Some((AddressingMode::IndirectX, Instruction::Sbc)),
        0xF1u8 => Some((AddressingMode::IndirectY, Instruction::Sbc)),
        0x85u8 => Some((AddressingMode::ZeroPage, Instruction::Sta)),
        0x95u8 => Some((AddressingMode::ZeroPageX, Instruction::Sta)),
        0x8Du8 => Some((AddressingMode::Absolute, Instruction::Sta)),
        0x9Du8 => Some((AddressingMode::AbsoluteX, Instruction::Sta)),
        0x99u8 => Some((AddressingMode::AbsoluteY, Instruction::Sta)),
        0x81u8 => Some((AddressingMode::IndirectX, Instruction::Sta)),
        0x91u8 => Some((AddressingMode::IndirectY, Instruction::Sta)),
        0x86u8 => Some((AddressingMode::ZeroPage, Instruction::Stx)),
        0x96u8 => Some((AddressingMode::ZeroPageY, Instruction::Stx)),
        0x8Eu8 => Some((AddressingMode::Absolute, Instruction::Stx)),
        0x84u8 => Some((AddressingMode::ZeroPage, Instruction::Sty)),
        0x94u8 => Some((AddressingMode::ZeroPageX, Instruction::Sty)),
        0x8Cu8 => Some((AddressingMode::Absolute, Instruction::Sty)),
        0xAAu8 => Some((AddressingMode::Implicit, Instruction::Tax)),
        0xA8u8 => Some((AddressingMode::Implicit, Instruction::Tay)),
        0xBAu8 => Some((AddressingMode::Implicit, Instruction::Tsx)),
        0x8Au8 => Some((AddressingMode::Implicit, Instruction::Txa)),
        0x9Au8 => Some((AddressingMode::Implicit, Instruction::Txs)),
        0x98u8 => Some((AddressingMode::Implicit, Instruction::Tya)),
        _ => None,
    }
}

/// The table entry of an opcode byte, if it is mapped.
pub open spec fn opcode_entry(opcode: u8) -> Option<Opcode> {
    match decoded(opcode) {
        Some((mode, op)) => Some(Opcode { opcode, mode, op }),
        None => None,
    }
}

/// Decodes one opcode byte.
pub fn decode(opcode: u8) -> (r: Option<Opcode>)
    ensures
        r == opcode_entry(opcode),
{
    proof {
        reveal(decoded);
    }
    let entry = match opcode {
        0x69 => (AddressingMode::Immediate, Instruction::Adc),
        0x65 => (AddressingMode::ZeroPage, Instruction::Adc),
        0x75 => (AddressingMode::ZeroPageX, Instruction::Adc),
        0x6D => (AddressingMode::Absolute, Instruction::Adc),
        0x7D => (AddressingMode::AbsoluteX, Instruction::Adc),
        0x79 => (AddressingMode::AbsoluteY, Instruction::Adc),
        0x61 => (AddressingMode::IndirectX, Instruction::Adc),
        0x71 => (AddressingMode::IndirectY, Instruction::Adc),
        0x29 => (AddressingMode::Immediate, Instruction::And),
        0x25 => (AddressingMode::ZeroPage, Instruction::And),
        0x35 => (AddressingMode::ZeroPageX, Instruction::And),
        0x2D => (AddressingMode::Absolute, Instruction::And),
        0x3D => (AddressingMode::AbsoluteX, Instruction::And),
        0x39 => (AddressingMode::AbsoluteY, Instruction::And),
        0x21 => (AddressingMode::IndirectX, Instruction::And),
        0x31 => (AddressingMode::IndirectY, Instruction::And),
        0x0A => (AddressingMode::Accumulator, Instruction::Asl),
        0x06 => (AddressingMode::ZeroPage, Instruction::Asl),
        0x16 => (AddressingMode::ZeroPageX, Instruction::Asl),
        0x0E => (AddressingMode::Absolute, Instruction::Asl),
        0x1E => (AddressingMode::AbsoluteX, Instruction::Asl),
        0x90 => (AddressingMode::Relative, Instruction::Bcc),
        0xB0 => (AddressingMode::Relative, Instruction::Bcs),
        0xF0 => (AddressingMode::Relative, Instruction::Beq),
        0x30 => (AddressingMode::Relative, Instruction::Bmi),
        0xD0 => (AddressingMode::Relative, Instruction::Bne),
        0x10 => (AddressingMode::Relative, Instruction::Bpl),
        0x50 => (AddressingMode::Relative, Instruction::Bvc),
        0x70 => (AddressingMode::Relative, Instruction::Bvs),
        0x24 => (AddressingMode::ZeroPage, Instruction::Bit),
        0x2C => (AddressingMode::Absolute, Instruction::Bit),
        0x00 => (AddressingMode::Implicit, Instruction::Brk),
        0x18 => (AddressingMode::Implicit, Instruction::Clc),
        0xD8 => (AddressingMode::Implicit, Instruction::Cld),
        0x58 => (AddressingMode::Implicit, Instruction::Cli),
        0xB8 => (AddressingMode::Implicit, Instruction::Clv),
        0x38 => (AddressingMode::Implicit, Instruction::Sec),
        0xF8 => (AddressingMode::Implicit, Instruction::Sed),
        0x78 => (AddressingMode::Implicit, Instruction::Sei),
        0xC9 => (AddressingMode::Immediate, Instruction::Cmp),
        0xC5 => (AddressingMode::ZeroPage, Instruction::Cmp),
        0xD5 => (AddressingMode::ZeroPageX, Instruction::Cmp),
        0xCD => (AddressingMode::Absolute, Instruction::Cmp),
        0xDD => (AddressingMode::AbsoluteX, Instruction::Cmp),
        0xD9 => (AddressingMode::AbsoluteY, Instruction::Cmp),
        0xC1 => (AddressingMode::IndirectX, Instruction::Cmp),
        0xD1 => (AddressingMode::IndirectY, Instruction::Cmp),
        0xE0 => (AddressingMode::Immediate, Instruction::Cpx),
        0xE4 => (AddressingMode::ZeroPage, Instruction::Cpx),
        0xEC => (AddressingMode::Absolute, Instruction::Cpx),
        0xC0 => (AddressingMode::Immediate, Instruction::Cpy),
        0xC4 => (AddressingMode::ZeroPage, Instruction::Cpy),
        0xCC => (AddressingMode::Absolute, Instruction::Cpy),
        0xC6 => (AddressingMode::ZeroPage, Instruction::Dec),
        0xD6 => (AddressingMode::ZeroPageX, Instruction::Dec),
        0xCE => (AddressingMode::Absolute, Instruction::Dec),
        0xDE => (AddressingMode::AbsoluteX, Instruction::Dec),
        0xCA => (AddressingMode::Implicit, Instruction::Dex),
        0x88 => (AddressingMode::Implicit, Instruction::Dey),
        0x49 => (AddressingMode::Immediate, Instruction::Eor),
        0x45 => (AddressingMode::ZeroPage, Instruction::Eor),
        0x55 => (AddressingMode::ZeroPageX, Instruction::Eor),
        0x4D => (AddressingMode::Absolute, Instruction::Eor),
        0x5D => (AddressingMode::AbsoluteX, Instruction::Eor),
        0x59 => (AddressingMode::AbsoluteY, Instruction::Eor),
        0x41 => (AddressingMode::IndirectX, Instruction::Eor),
        0x51 => (AddressingMode::IndirectY, Instruction::Eor),
        0xE6 => (AddressingMode::ZeroPage, Instruction::Inc),
        0xF6 => (AddressingMode::ZeroPageX, Instruction::Inc),
        0xEE => (AddressingMode::Absolute, Instruction::Inc),
        0xFE => (AddressingMode::AbsoluteX, Instruction::Inc),
        0xE8 => (AddressingMode::Implicit, Instruction::Inx),
        0xC8 => (AddressingMode::Implicit, Instruction::Iny),
        0x4C => (AddressingMode::Absolute, Instruction::Jmp),
        0x6C => (AddressingMode::Indirect, Instruction::Jmp),
        0x20 => (AddressingMode::Absolute, Instruction::Jsr),
        0xA9 => (AddressingMode::Immediate, Instruction::Lda),
        0xA5 => (AddressingMode::ZeroPage, Instruction::Lda),
        0xB5 => (AddressingMode::ZeroPageX, Instruction::Lda),
        0xAD => (AddressingMode::Absolute, Instruction::Lda),
        0xBD => (AddressingMode::AbsoluteX, Instruction::Lda),
        0xB9 => (AddressingMode::AbsoluteY, Instruction::Lda),
        0xA1 => (AddressingMode::IndirectX, Instruction::Lda),
        0xB1 => (AddressingMode::IndirectY, Instruction::Lda),
        0xA2 => (AddressingMode::Immediate, Instruction::Ldx),
        0xA6 => (AddressingMode::ZeroPage, Instruction::Ldx),
        0xB6 => (AddressingMode::ZeroPageY, Instruction::Ldx),
        0xAE => (AddressingMode::Absolute, Instruction::Ldx),
        0xBE => (AddressingMode::AbsoluteY, Instruction::Ldx),
        0xA0 => (AddressingMode::Immediate, Instruction::Ldy),
        0xA4 => (AddressingMode::ZeroPage, Instruction::Ldy),
        0xB4 => (AddressingMode::ZeroPageX, Instruction::Ldy),
        0xAC => (AddressingMode::Absolute, Instruction::Ldy),
        0xBC => (AddressingMode::AbsoluteX, Instruction::Ldy),
        0x4A => (AddressingMode::Accumulator, Instruction::Lsr),
        0x46 => (AddressingMode::ZeroPage, Instruction::Lsr),
        0x56 => (AddressingMode::ZeroPageX, Instruction::Lsr),
        0x4E => (AddressingMode::Absolute, Instruction::Lsr),
        0x5E => (AddressingMode::AbsoluteX, Instruction::Lsr),
        0xEA => (AddressingMode::Implicit, Instruction::Nop),
        0x09 => (AddressingMode::Immediate, Instruction::Ora),
        0x05 => (AddressingMode::ZeroPage, Instruction::Ora),
        0x15 => (AddressingMode::ZeroPageX, Instruction::Ora),
        0x0D => (AddressingMode::Absolute, Instruction::Ora),
        0x1D => (AddressingMode::AbsoluteX, Instruction::Ora),
        0x19 => (AddressingMode::AbsoluteY, Instruction::Ora),
        0x01 => (AddressingMode::IndirectX, Instruction::Ora),
        0x11 => (AddressingMode::IndirectY, Instruction::Ora),
        0x48 => (AddressingMode::Implicit, Instruction::Pha),
        0x08 => (AddressingMode::Implicit, Instruction::Php),
        0x68 => (AddressingMode::Implicit, Instruction::Pla),
        0x28 => (AddressingMode::Implicit, Instruction::Plp),
        0x2A => (AddressingMode::Accumulator, Instruction::Rol),
        0x26 => (AddressingMode::ZeroPage, Instruction::Rol),
        0x36 => (AddressingMode::ZeroPageX, Instruction::Rol),
        0x2E => (AddressingMode::Absolute, Instruction::Rol),
        0x3E => (AddressingMode::AbsoluteX, Instruction::Rol),
        0x6A => (AddressingMode::Accumulator, Instruction::Ror),
        0x66 => (AddressingMode::ZeroPage, Instruction::Ror),
        0x76 => (AddressingMode::ZeroPageX, Instruction::Ror),
        0x6E => (AddressingMode::Absolute, Instruction::Ror),
        0x7E => (AddressingMode::AbsoluteX, Instruction::Ror),
        0x40 => (AddressingMode::Implicit, Instruction::Rti),
        0x60 => (AddressingMode::Implicit, Instruction::Rts),
        0xE9 => (AddressingMode::Immediate, Instruction::Sbc),
        0xE5 => (AddressingMode::ZeroPage, Instruction::Sbc),
        0xF5 => (AddressingMode::ZeroPageX, Instruction::Sbc),
        0xED => (AddressingMode::Absolute, Instruction::Sbc),
        0xFD => (AddressingMode::AbsoluteX, Instruction::Sbc),
        0xF9 => (AddressingMode::AbsoluteY, Instruction::Sbc),
        0xE1 => (AddressingMode::IndirectX, Instruction::Sbc),
        0xF1 => (AddressingMode::IndirectY, Instruction::Sbc),
        0x85 => (AddressingMode::ZeroPage, Instruction::Sta),
        0x95 => (AddressingMode::ZeroPageX, Instruction::Sta),
        0x8D => (AddressingMode::Absolute, Instruction::Sta),
        0x9D => (AddressingMode::AbsoluteX, Instruction::Sta),
        0x99 => (AddressingMode::AbsoluteY, Instruction::Sta),
        0x81 => (AddressingMode::IndirectX, Instruction::Sta),
        0x91 => (AddressingMode::IndirectY, Instruction::Sta),
        0x86 => (AddressingMode::ZeroPage, Instruction::Stx),
        0x96 => (AddressingMode::ZeroPageY, Instruction::Stx),
        0x8E => (AddressingMode::Absolute, Instruction::Stx),
        0x84 => (AddressingMode::ZeroPage, Instruction::Sty),
        0x94 => (AddressingMode::ZeroPageX, Instruction::Sty),
        0x8C => (AddressingMode::Absolute, Instruction::Sty),
        0xAA => (AddressingMode::Implicit, Instruction::Tax),
        0xA8 => (AddressingMode::Implicit, Instruction::Tay),
        0xBA => (AddressingMode::Implicit, Instruction::Tsx),
        0x8A => (AddressingMode::Implicit, Instruction::Txa),
        0x9A => (AddressingMode::Implicit, Instruction::Txs),
        0x98 => (AddressingMode::Implicit, Instruction::Tya),
        _ => {
            return None;
        },
    };
    Some(Opcode { opcode, mode: entry.0, op: entry.1 })
}

/// Every mapped opcode pairs its instruction with a mode it accepts.
pub proof fn lemma_table_modes_accepted(opcode: u8)
    ensures
        opcode_entry(opcode) matches Some(e) ==> e.op.accepts(e.mode),
{
    reveal(decoded);
}

/// The dispatch table, one slot per opcode byte.
pub struct OpcodeMap {
    pub entries: Vec<Option<Opcode>>,
}

impl OpcodeMap {
    pub open spec fn wf(&self) -> bool {
        &&& self.entries@.len() == 256
        &&& forall|i: int| 0 <= i < 256 ==> #[trigger] self.entries@[i] == opcode_entry(i as u8)
    }

    /// The entry of an opcode byte.
    pub fn get(&self, opcode: u8) -> (r: Option<Opcode>)
        requires
            self.wf(),
        ensures
            r == opcode_entry(opcode),
    {
        self.entries[opcode as usize]
    }
}

/// Builds the dispatch table.
pub fn opcodes() -> (r: OpcodeMap)
    ensures
        r.wf(),
{
    let mut entries: Vec<Option<Opcode>> = Vec::new();
    let mut i: u16 = 0;
    while i < 256
        invariant
            i <= 256,
            entries@.len() == i,
            forall|j: int| 0 <= j < i ==> #[trigger] entries@[j] == opcode_entry(j as u8),
        decreases 256 - i,
    {
        entries.push(decode(i as u8));
        i = i + 1;
    }
    OpcodeMap { entries }
}

/// A byte written below the program window is read back at the same address.
proof fn lemma_write_then_read(m: MemoryView, addr: u16)
    requires
        m.wf(),
    ensures
        forall|v: u8| MemoryView::writable(addr) ==> #[trigger] m.write(addr, v).read(addr) == v,
{
}

/// The byte an instruction produced, for the instructions whose zero and
/// negative flags follow a result: the register or memory byte written, or
/// for the compare family the wrapped difference.
pub open spec fn produced_byte(
    op: Instruction,
    mode: AddressingMode,
    r: CpuRegisters,
    m: MemoryView,
    after: (CpuRegisters, MemoryView),
) -> Option<u8> {
    let v = super::operand_value(mode, r, m);
    match op {
        Instruction::Adc | Instruction::Sbc | Instruction::And | Instruction::Ora | Instruction::Eor
        | Instruction::Lda | Instruction::Txa | Instruction::Tya | Instruction::Pla => Some(after.0.a.value),
        Instruction::Ldx | Instruction::Tax | Instruction::Tsx | Instruction::Inx | Instruction::Dex => Some(
            after.0.x.value,
        ),
        Instruction::Ldy | Instruction::Tay | Instruction::Iny | Instruction::Dey => Some(after.0.y.value),
        Instruction::Inc | Instruction::Dec | Instruction::Asl | Instruction::Lsr | Instruction::Rol
        | Instruction::Ror => if mode is Accumulator {
            Some(after.0.a.value)
        } else {
            Some(after.1.read(operand_address(mode, r, m)))
        },
        Instruction::Cmp => Some(((r.a.value - v + 256) % 256) as u8),
        Instruction::Cpx => Some(((r.x.value - v + 256) % 256) as u8),
        Instruction::Cpy => Some(((r.y.value - v + 256) % 256) as u8),
        _ => None,
    }
}

/// For every arithmetic, logic, load, transfer, shift, increment and
/// compare instruction, the zero flag afterwards is set exactly when the
/// produced byte is zero, and the negative flag exactly when its bit 7 is.
pub proof fn lemma_zero_negative_follow_result(op: Instruction, mode: AddressingMode, r: CpuRegisters, m: MemoryView)
    requires
        m.wf(),
        op.accepts(mode),
    ensures
        op.effect(mode, r, m) matches Some(after) ==> (produced_byte(op, mode, r, m, after) matches Some(v) ==> (
        after.0.p.zero == (v == 0) && after.0.p.negative == (v & 0x80 != 0))),
{
    reveal(<Instruction as Op>::effect);
    match op {
        Instruction::Adc => {},
        Instruction::And => {},
        Instruction::Asl => {
            if !(mode is Accumulator) {
                lemma_write_then_read(m, operand_address(mode, r, m));
            }
        },
        Instruction::Bcc => {},
        Instruction::Bcs => {},
        Instruction::Beq => {},
        Instruction::Bmi => {},
        Instruction::Bne => {},
        Instruction::Bpl => {},
        Instruction::Bvc => {},
        Instruction::Bvs => {},
        Instruction::Bit => {},
        Instruction::Brk => {},
        Instruction::Clc => {},
        Instruction::Cld => {},
        Instruction::Cli => {},
        Instruction::Clv => {},
        Instruction::Sec => {},
        Instruction::Sed => {},
        Instruction::Sei => {},
        Instruction::Cmp => {},
        Instruction::Cpx => {},
        Instruction::Cpy => {},
        Instruction::Dec => {
            if !(mode is Accumulator) {
                lemma_write_then_read(m, operand_address(mode, r, m));
            }
        },
        Instruction::Dex => {},
        Instruction::Dey => {},
        Instruction::Eor => {},
        Instruction::Inc => {
            if !(mode is Accumulator) {
                lemma_write_then_read(m, operand_address(mode, r, m));
            }
        },
        Instruction::Inx => {},
        Instruction::Iny => {},
        Instruction::Jmp => {},
        Instruction::Jsr => {},
        Instruction::Lda => {},
        Instruction::Ldx => {},
        Instruction::Ldy => {},
        Instruction::Lsr => {
            if !(mode is Accumulator) {
                lemma_write_then_read(m, operand_address(mode, r, m));
            }
        },
        Instruction::Nop => {},
        Instruction::Ora => {},
        Instruction::Pha => {},
        Instruction::Php => {},
        Instruction::Pla => {},
        Instruction::Plp => {},
        Instruction::Rol => {
            if !(mode is Accumulator) {
                lemma_write_then_read(m, operand_address(mode, r, m));
            }
        },
        Instruction::Ror => {
            if !(mode is Accumulator) {
                lemma_write_then_read(m, operand_address(mode, r, m));
            }
        },
        Instruction::Rti => {},
        Instruction::Rts => {},
        Instruction::Sbc => {},
        Instruction::Sta => {},
        Instruction::Stx => {},
        Instruction::Sty => {},
        Instruction::Tax => {},
        Instruction::Tay => {},
        Instruction::Tsx => {},
        Instruction::Txa => {},
        Instruction::Txs => {},
        Instruction::Tya => {},
    }
}

} // verus!
