use rust_nes::cpu::STACK_END;
use rust_nes::cpu::memory::Memory;
use rust_nes::cpu::ops::arith::{Adc, Cmp, Cpx, Cpy, Sbc};
use rust_nes::cpu::ops::flags::{Clc, Cld, Cli, Clv, Sec, Sed, Sei};
use rust_nes::cpu::ops::flow::{Bcc, Bcs, Beq, Bmi, Bne, Bpl, Brk, Bvc, Bvs, Jmp, Jsr, Rti, Rts};
use rust_nes::cpu::ops::incdec::{Dec, Dex, Dey, Inc, Inx, Iny};
use rust_nes::cpu::ops::load_store::{Lda, Ldx, Ldy, Sta, Stx, Sty};
use rust_nes::cpu::ops::logic::{And, Bit, Eor, Ora};
use rust_nes::cpu::ops::shift::{Asl, Lsr, Rol, Ror};
use rust_nes::cpu::ops::stack::{Pha, Php, Pla, Plp};
use rust_nes::cpu::ops::transfer::{Tax, Tay, Tsx, Txa, Txs, Tya};
use rust_nes::cpu::ops::{AddressingMode, Op, STACK_START, stack_peek, stack_peek_u16, stack_push, stack_push_u16};
use rust_nes::cpu::register::{CpuRegisters, STACK_POINTER_START};

fn branch_taken(op: impl Op, setup: impl Fn(&mut CpuRegisters)) -> bool {
    let mut r = CpuRegisters::new();
    let mut m = Memory::new();

    setup(&mut r);

    m.write(0x0000, 0x10).unwrap();
    op.call(AddressingMode::Relative, &mut r, &mut m).unwrap();

    0x11 == r.pc.value
}

#[test]
fn adc_simple() {
        let (op, mut r, mut m) = (Adc, CpuRegisters::new(), Memory::new());

        m.write(0x0000, 0x1).unwrap();

        op.call(AddressingMode::Immediate, &mut r, &mut m).unwrap();

        assert_eq!(0x01, r.a.value);
        assert!(!r.p.is_negative());
        assert!(!r.p.is_zero());
        assert!(!r.p.has_carry());
        assert!(!r.p.has_overflown());
}

#[test]
fn with_carry_set() {
        let (op, mut r, mut m) = (Adc, CpuRegisters::new(), Memory::new());

        r.p.set_carry(true);
        m.write(0x0000, 0x1).unwrap();

        op.call(AddressingMode::Immediate, &mut r, &mut m).unwrap();

        assert_eq!(0x02, r.a.value);
        assert!(!r.p.is_negative());
        assert!(!r.p.is_zero());
        assert!(!r.p.has_carry());
        assert!(!r.p.has_overflown());
}

#[test]
fn overflow_u8_should_only_set_carry() {
        let (op, mut r, mut m) = (Adc, CpuRegisters::new(), Memory::new());

        r.a.set(0xFF);
        m.write(0x0000, 0x1).unwrap();

        op.call(AddressingMode::Immediate, &mut r, &mut m).unwrap();

        assert_eq!(0x00, r.a.value);
        assert!(!r.p.is_negative());
        assert!(r.p.is_zero());
        assert!(r.p.has_carry());
        assert!(!r.p.has_overflown());
}

#[test]
fn two_positive_number_resulting_in_negative_result_overflow_without_carry() {
        let (op, mut r, mut m) = (Adc, CpuRegisters::new(), Memory::new());

        r.a.set(0x50);
        m.write(0x0000, 0x50).unwrap();

        // 0x50 + 0x50 = 0xa0 / 80 + 80 = -96 signed (160 unsigned)
        op.call(AddressingMode::Immediate, &mut r, &mut m).unwrap();

        assert_eq!(0xa0, r.a.value);
        assert!(r.p.is_negative());
        assert!(!r.p.is_zero());
        assert!(!r.p.has_carry());
        assert!(r.p.has_overflown());
}

#[test]
fn two_negative_number_resulting_in_positive_result_overflow_with_carry() {
        let (op, mut r, mut m) = (Adc, CpuRegisters::new(), Memory::new());

        // 0x50 + 0x50 = 0xa0 / 80 + 80 = -96 signed (160 unsigned)
        r.a.set(0xd0);
        m.write(0x0000, 0x90).unwrap();

        // 0xd0 + 0x90 = 0x160
        // Unsigned: 208 + 144 = 352 (96 + carry)
        // Signed: -48 + -112 = 96
        op.call(AddressingMode::Immediate, &mut r, &mut m).unwrap();

        assert_eq!(0x60, r.a.value);
        assert!(!r.p.is_negative());
        assert!(!r.p.is_zero());
        assert!(r.p.has_carry());
        assert!(r.p.has_overflown());
}

#[test]
fn and_immediate() {
    let (op, mut r, mut m) = (And, CpuRegisters::new(), Memory::new());

    r.a.set(0b1001_1001);
    m.write(0x0000, 0b1000_0000).unwrap();

    op.call(AddressingMode::Immediate, &mut r, &mut m).unwrap();

    assert_eq!(0b1000_0000, r.a.value);
    assert!(r.p.is_negative());
    assert!(!r.p.is_zero());
}

#[test]
fn asl_accumulator() {
    let (op, mut r, mut m) = (Asl, CpuRegisters::new(), Memory::new());

    r.a.set(0b0000_0001);

    op.call(AddressingMode::Accumulator, &mut r, &mut m).unwrap();

    assert_eq!(0b0000_0010, r.a.value);
    assert!(!r.p.is_negative());
    assert!(!r.p.is_zero());
    assert!(!r.p.has_carry());
}

#[test]
fn accumulator_negative() {
    let (op, mut r, mut m) = (Asl, CpuRegisters::new(), Memory::new());

    r.a.set(0b0100_0000);

    op.call(AddressingMode::Accumulator, &mut r, &mut m).unwrap();

    assert_eq!(0b1000_0000, r.a.value);
    assert!(r.p.is_negative());
    assert!(!r.p.is_zero());
    assert!(!r.p.has_carry());
}

#[test]
fn accumulator_with_carry() {
    let (op, mut r, mut m) = (Asl, CpuRegisters::new(), Memory::new());

    r.a.set(0b1000_0000);

    op.call(AddressingMode::Accumulator, &mut r, &mut m).unwrap();

    assert_eq!(0b0000_0000, r.a.value);
    assert!(!r.p.is_negative());
    assert!(r.p.is_zero());
    assert!(r.p.has_carry());
}

#[test]
fn set_zero() {
    let (op, mut r, mut m) = (Bit, CpuRegisters::new(), Memory::new());

    r.a.set(0b1000_0000);
    // The operand sits at 0x0200: 0x0000 is a mirror of 0x1000.
    r.pc.set(0x0200);
    m.write_u16(0x0200, 0x1000).unwrap();
    m.write(0x1000, 0b0000_0000).unwrap();

    op.call(AddressingMode::Absolute, &mut r, &mut m).unwrap();

    assert!(r.p.is_zero());
    assert!(!r.p.has_overflown());
    assert!(!r.p.is_negative());
}

#[test]
fn not_zero_but_overflow_and_negative() {
    let (op, mut r, mut m) = (Bit, CpuRegisters::new(), Memory::new());

    r.a.set(0b1000_0000);
    // The operand sits at 0x0200: 0x0000 is a mirror of 0x1000.
    r.pc.set(0x0200);
    m.write_u16(0x0200, 0x1000).unwrap();
    m.write(0x1000, 0b1100_0000).unwrap();

    op.call(AddressingMode::Absolute, &mut r, &mut m).unwrap();

    assert!(!r.p.is_zero());
    assert!(r.p.has_overflown());
    assert!(r.p.is_negative());
}

#[test]
fn bcc() {
    assert!(branch_taken(Bcc, |r| r.p.set_carry(false)));
    assert!(!branch_taken(Bcc, |r| r.p.set_carry(true)));
}

#[test]
fn bcs() {
    assert!(branch_taken(Bcs, |r| r.p.set_carry(true)));
    assert!(!branch_taken(Bcs, |r| r.p.set_carry(false)));
}

#[test]
fn beq() {
    assert!(branch_taken(Beq, |r| r.p.set_zero(true)));
    assert!(!branch_taken(Beq, |r| r.p.set_zero(false)));
}

#[test]
fn bmi() {
    assert!(branch_taken(Bmi, |r| r.p.set_negative(true)));
    assert!(!branch_taken(Bmi, |r| r.p.set_negative(false)));
}

#[test]
fn bne() {
    assert!(branch_taken(Bne, |r| r.p.set_zero(false)));
    assert!(!branch_taken(Bne, |r| r.p.set_zero(true)));
}

#[test]
fn bpl() {
    assert!(branch_taken(Bpl, |r| r.p.set_negative(false)));
    assert!(!branch_taken(Bpl, |r| r.p.set_negative(true)));
}

#[test]
fn bvc() {
    assert!(branch_taken(Bvc, |r| r.p.set_overflow(false)));
    assert!(!branch_taken(Bvc, |r| r.p.set_overflow(true)));
}

#[test]
fn bvs() {
    assert!(branch_taken(Bvs, |r| r.p.set_overflow(true)));
    assert!(!branch_taken(Bvs, |r| r.p.set_overflow(false)));
}

#[test]
fn brk() {
    let (op, mut r, mut m) = (Brk, CpuRegisters::new(), Memory::new());

    r.pc.set(0x2345);
    r.p.set_negative(true);
    r.p.set_carry(true);

    m.load_program(0xFFFE, &[0x34, 0x12]);

    op.call(AddressingMode::Implicit, &mut r, &mut m).unwrap();

    assert_eq!(STACK_POINTER_START - 3, r.sp.value);
    assert_eq!(0x23, m.read(STACK_END));
    assert_eq!(0x45, m.read(STACK_END - 1));
    assert_eq!(0b1011_0001, m.read(STACK_END - 2));

    assert_eq!(0x1234, r.pc.value);
}

#[test]
fn a_gt_m() {
    let (op, mut r, mut m) = (Cmp, CpuRegisters::new(), Memory::new());

    r.a.set(0x1C);
    m.write(0x0000, 0x0C).unwrap();

    op.call(AddressingMode::Immediate, &mut r, &mut m).unwrap();

    assert!(r.p.has_carry());
    assert!(!r.p.is_zero());
    assert!(!r.p.is_negative());
}

#[test]
fn a_lt_m() {
    let (op, mut r, mut m) = (Cmp, CpuRegisters::new(), Memory::new());

    r.a.set(0x0C);
    m.write(0x0000, 0x1C).unwrap();

    op.call(AddressingMode::Immediate, &mut r, &mut m).unwrap();

    assert!(!r.p.has_carry());
    assert!(!r.p.is_zero());
    assert!(r.p.is_negative());
}

#[test]
fn a_eq_m() {
    let (op, mut r, mut m) = (Cmp, CpuRegisters::new(), Memory::new());

    r.a.set(0x1C);
    m.write(0x0000, 0x1C).unwrap();

    op.call(AddressingMode::Immediate, &mut r, &mut m).unwrap();

    assert!(r.p.has_carry());
    assert!(r.p.is_zero());
    assert!(!r.p.is_negative());
}

#[test]
fn x_gt_m() {
    let (op, mut r, mut m) = (Cpx, CpuRegisters::new(), Memory::new());

    r.x.set(0x1C);
    m.write(0x0000, 0x0C).unwrap();

    op.call(AddressingMode::Immediate, &mut r, &mut m).unwrap();

    assert!(r.p.has_carry());
    assert!(!r.p.is_zero());
    assert!(!r.p.is_negative());
}

#[test]
fn x_lt_m() {
    let (op, mut r, mut m) = (Cpx, CpuRegisters::new(), Memory::new());

    r.x.set(0x0C);
    m.write(0x0000, 0x1C).unwrap();

    op.call(AddressingMode::Immediate, &mut r, &mut m).unwrap();

    assert!(!r.p.has_carry());
    assert!(!r.p.is_zero());
    assert!(r.p.is_negative());
}

#[test]
fn x_eq_m() {
    let (op, mut r, mut m) = (Cpx, CpuRegisters::new(), Memory::new());

    r.x.set(0x1C);
    m.write(0x0000, 0x1C).unwrap();

    op.call(AddressingMode::Immediate, &mut r, &mut m).unwrap();

    assert!(r.p.has_carry());
    assert!(r.p.is_zero());
    assert!(!r.p.is_negative());
}

#[test]
fn y_gt_m() {
    let (op, mut r, mut m) = (Cpy, CpuRegisters::new(), Memory::new());

    r.y.set(0x1C);
    m.write(0x0000, 0x0C).unwrap();

    op.call(AddressingMode::Immediate, &mut r, &mut m).unwrap();

    assert!(r.p.has_carry());
    assert!(!r.p.is_zero());
    assert!(!r.p.is_negative());
}

#[test]
fn y_lt_m() {
    let (op, mut r, mut m) = (Cpy, CpuRegisters::new(), Memory::new());

    r.y.set(0x0C);
    m.write(0x0000, 0x1C).unwrap();

    op.call(AddressingMode::Immediate, &mut r, &mut m).unwrap();

    assert!(!r.p.has_carry());
    assert!(!r.p.is_zero());
    assert!(r.p.is_negative());
}

#[test]
fn y_eq_m() {
    let (op, mut r, mut m) = (Cpy, CpuRegisters::new(), Memory::new());

    r.y.set(0x1C);
    m.write(0x0000, 0x1C).unwrap();

    op.call(AddressingMode::Immediate, &mut r, &mut m).unwrap();

    assert!(r.p.has_carry());
    assert!(r.p.is_zero());
    assert!(!r.p.is_negative());
}

#[test]
fn dec() {
    let (op, mut r, mut m) = (Dec, CpuRegisters::new(), Memory::new());

    m.write(0x0000, 0x10).unwrap();
    m.write(0x0010, 0x0F).unwrap();

    op.call(AddressingMode::ZeroPage, &mut r, &mut m).unwrap();

    assert_eq!(0x0E, m.read(0x0010));

    assert!(!r.p.is_zero());
    assert!(!r.p.is_negative());
}

#[test]
fn dec_with_wrapping() {
    let (op, mut r, mut m) = (Dec, CpuRegisters::new(), Memory::new());

    m.write(0x0000, 0x10).unwrap();
    m.write(0x0010, 0x00).unwrap();

    op.call(AddressingMode::ZeroPage, &mut r, &mut m).unwrap();

    assert_eq!(0xFF, m.read(0x0010));

    assert!(!r.p.is_zero());
    assert!(r.p.is_negative());
}

#[test]
fn dec_zero() {
    let (op, mut r, mut m) = (Dec, CpuRegisters::new(), Memory::new());

    m.write(0x0000, 0x10).unwrap();
    m.write(0x0010, 0x01).unwrap();

    op.call(AddressingMode::ZeroPage, &mut r, &mut m).unwrap();

    assert_eq!(0x00, m.read(0x0010));

    assert!(r.p.is_zero());
    assert!(!r.p.is_negative());
}

#[test]
fn dex_simple() {
    let (op, mut r, mut m) = (Dex, CpuRegisters::new(), Memory::new());

    r.x.set(0x0F);

    op.call(AddressingMode::Implicit, &mut r, &mut m).unwrap();

    assert_eq!(0x0E, r.x.value);

    assert!(!r.p.is_zero());
    assert!(!r.p.is_negative());
}

#[test]
fn dex_with_wrapping() {
    let (op, mut r, mut m) = (Dex, CpuRegisters::new(), Memory::new());

    r.x.set(0x00);

    op.call(AddressingMode::Implicit, &mut r, &mut m).unwrap();

    assert_eq!(0xFF, r.x.value);

    assert!(!r.p.is_zero());
    assert!(r.p.is_negative());
}

#[test]
fn dex_zero() {
    let (op, mut r, mut m) = (Dex, CpuRegisters::new(), Memory::new());

    r.x.set(0x01);

    op.call(AddressingMode::Implicit, &mut r, &mut m).unwrap();

    assert_eq!(0x00, r.x.value);

    assert!(r.p.is_zero());
    assert!(!r.p.is_negative());
}

#[test]
fn dey_simple() {
    let (op, mut r, mut m) = (Dey, CpuRegisters::new(), Memory::new());

    r.y.set(0x0F);

    op.call(AddressingMode::Implicit, &mut r, &mut m).unwrap();

    assert_eq!(0x0E, r.y.value);

    assert!(!r.p.is_zero());
    assert!(!r.p.is_negative());
}

#[test]
fn dey_with_wrapping() {
    let (op, mut r, mut m) = (Dey, CpuRegisters::new(), Memory::new());

    r.y.set( 0x00);

    op.call(AddressingMode::Implicit, &mut r, &mut m).unwrap();

    assert_eq!(0xFF, r.y.value);

    assert!(!r.p.is_zero());
    assert!(r.p.is_negative());
}

#[test]
fn dey_zero() {
    let (op, mut r, mut m) = (Dey, CpuRegisters::new(), Memory::new());

    r.y.set(0x01);

    op.call(AddressingMode::Implicit, &mut r, &mut m).unwrap();

    assert_eq!(0x00, r.y.value);

    assert!(r.p.is_zero());
    assert!(!r.p.is_negative());
}

#[test]
fn eor_simple() {
    let (op, mut r, mut m) = (Eor, CpuRegisters::new(), Memory::new());

    r.a.set(0b1010_0101);
    m.write(0x0000, 0b0101_1010).unwrap();

    op.call(AddressingMode::Immediate, &mut r, &mut m).unwrap();

    assert_eq!(0b1111_1111, r.a.value);

    assert!(!r.p.is_zero());
    assert!(r.p.is_negative());
}

#[test]
fn eor_zero() {
    let (op, mut r, mut m) = (Eor, CpuRegisters::new(), Memory::new());

    r.a.set(0xFF);
    m.write(0x0000, 0xFF).unwrap();

    op.call(AddressingMode::Immediate, &mut r, &mut m).unwrap();

    assert_eq!(0x00, r.a.value);

    assert!(r.p.is_zero());
    assert!(!r.p.is_negative());
}

#[test]
fn clc() {
    let (op, mut r, mut m) = (Clc, CpuRegisters::new(), Memory::new());

    r.p.set_carry(true);

    op.call(AddressingMode::Implicit, &mut r, &mut m).unwrap();

    assert!(!r.p.has_carry());
}

#[test]
fn cld() {
    let (op, mut r, mut m) = (Cld, CpuRegisters::new(), Memory::new());

    r.p.set_decimal_mode(true);

    op.call(AddressingMode::Implicit, &mut r, &mut m).unwrap();

    assert!(!r.p.decimal_mode());
}

#[test]
fn cli() {
    let (op, mut r, mut m) = (Cli, CpuRegisters::new(), Memory::new());

    r.p.set_interrupt_disable(true);

    op.call(AddressingMode::Implicit, &mut r, &mut m).unwrap();

    assert!(!r.p.interrupt_disabled());
}

#[test]
fn clv() {
    let (op, mut r, mut m) = (Clv, CpuRegisters::new(), Memory::new());

    r.p.set_overflow(true);

    op.call(AddressingMode::Implicit, &mut r, &mut m).unwrap();

    assert!(!r.p.has_overflown());
}

#[test]
fn sec() {
    let (op, mut r, mut m) = (Sec, CpuRegisters::new(), Memory::new());

    r.p.set_carry(false);

    op.call(AddressingMode::Implicit, &mut r, &mut m).unwrap();

    assert!(r.p.has_carry());
}

#[test]
fn sed() {
    let (op, mut r, mut m) = (Sed, CpuRegisters::new(), Memory::new());

    r.p.set_decimal_mode(false);

    op.call(AddressingMode::Implicit, &mut r, &mut m).unwrap();

    assert!(r.p.decimal_mode());
}

#[test]
fn sei() {
    let (op, mut r, mut m) = (Sei, CpuRegisters::new(), Memory::new());

    r.p.set_interrupt_disable(false);

    op.call(AddressingMode::Implicit, &mut r, &mut m).unwrap();

    assert!(r.p.interrupt_disabled());
}

#[test]
fn inc_simple() {
    let (op, mut r, mut m) = (Inc, CpuRegisters::new(), Memory::new());

    m.write(0x0000, 0x10).unwrap();
    m.write(0x0010, 0x0F).unwrap();

    op.call(AddressingMode::ZeroPage, &mut r, &mut m).unwrap();

    assert_eq!(0x10, m.read(0x0010));

    assert!(!r.p.is_zero());
    assert!(!r.p.is_negative());
}

#[test]
fn inc_with_wrapping() {
    let (op, mut r, mut m) = (Inc, CpuRegisters::new(), Memory::new());

    m.write(0x0000, 0x10).unwrap();
    m.write(0x0010, 0xFF).unwrap();

    op.call(AddressingMode::ZeroPage, &mut r, &mut m).unwrap();

    assert_eq!(0x00, m.read(0x0010));

    assert!(r.p.is_zero());
    assert!(!r.p.is_negative());
}

#[test]
fn inc_negative() {
    let (op, mut r, mut m) = (Inc, CpuRegisters::new(), Memory::new());

    m.write(0x0000, 0x10).unwrap();
    m.write(0x0010, 0xFE).unwrap();

    op.call(AddressingMode::ZeroPage, &mut r, &mut m).unwrap();

    assert_eq!(0xFF, m.read(0x0010));

    assert!(!r.p.is_zero());
    assert!(r.p.is_negative());
}

#[test]
fn inx_simple() {
    let (op, mut r, mut m) = (Inx, CpuRegisters::new(), Memory::new());

    r.x.set(0x0F);

    op.call(AddressingMode::Implicit, &mut r, &mut m).unwrap();

    assert_eq!(0x10, r.x.value);

    assert!(!r.p.is_zero());
    assert!(!r.p.is_negative());
}

#[test]
fn inx_with_wrapping() {
    let (op, mut r, mut m) = (Inx, CpuRegisters::new(), Memory::new());

    r.x.set(0xFF);

    op.call(AddressingMode::Implicit, &mut r, &mut m).unwrap();

    assert_eq!(0x00, r.x.value);

    assert!(r.p.is_zero());
    assert!(!r.p.is_negative());
}

#[test]
fn inx_negative() {
    let (op, mut r, mut m) = (Inx, CpuRegisters::new(), Memory::new());

    r.x.set(0xFE);

    op.call(AddressingMode::Implicit, &mut r, &mut m).unwrap();

    assert_eq!(0xFF, r.x.value);

    assert!(!r.p.is_zero());
    assert!(r.p.is_negative());
}

#[test]
fn iny_simple() {
    let (op, mut r, mut m) = (Iny, CpuRegisters::new(), Memory::new());

    r.y.set(0x0F);

    op.call(AddressingMode::Implicit, &mut r, &mut m).unwrap();

    assert_eq!(0x10, r.y.value);

    assert!(!r.p.is_zero());
    assert!(!r.p.is_negative());
}

#[test]
fn iny_with_wrapping() {
    let (op, mut r, mut m) = (Iny, CpuRegisters::new(), Memory::new());

    r.y.set(0xFF);

    op.call(AddressingMode::Implicit, &mut r, &mut m).unwrap();

    assert_eq!(0x00, r.y.value);

    assert!(r.p.is_zero());
    assert!(!r.p.is_negative());
}

#[test]
fn iny_negative() {
    let (op, mut r, mut m) = (Iny, CpuRegisters::new(), Memory::new());

    r.y.set(0xFE);

    op.call(AddressingMode::Implicit, &mut r, &mut m).unwrap();

    assert_eq!(0xFF, r.y.value);

    assert!(!r.p.is_zero());
    assert!(r.p.is_negative());
}

#[test]
fn jmp_simple() {
    let (op, mut r, mut m) = (Jmp, CpuRegisters::new(), Memory::new());

    m.write_u16(0x0000, 0x1234).unwrap();

    op.call(AddressingMode::Absolute, &mut r, &mut m).unwrap();

    assert_eq!(0x1234, r.pc.value);
}

#[test]
fn buggy_indirect() {
    let (op, mut r, mut m) = (Jmp, CpuRegisters::new(), Memory::new());

    m.write(0x10FF, 0x89).unwrap();
    m.write(0x1100, 0x12).unwrap();
    m.write(0x1000, 0x34).unwrap();

    // The operand sits at 0x0200: 0x0000 is a mirror of 0x1000.
    r.pc.set(0x0200);
    m.write_u16(0x0200, 0x10FF).unwrap();

    op.call(AddressingMode::Indirect, &mut r, &mut m).unwrap();

    assert_eq!(0x3489, r.pc.value);
}

#[test]
fn jsr_simple() {
    let (op, mut r, mut m) = (Jsr, CpuRegisters::new(), Memory::new());

    r.pc.set(0x200);
    m.write_u16(0x0200, 0x1234).unwrap();

    op.call(AddressingMode::Absolute, &mut r, &mut m).unwrap();

    assert_eq!(0x1234, r.pc.value);
    // The call pushes the return address minus one: its own last byte.
    assert_eq!(0x0201, stack_peek_u16(&r, &m));
}

#[test]
fn lda_simple() {
    let (op, mut r, mut m) = (Lda, CpuRegisters::new(), Memory::new());

    m.write(0x0000, 0x10).unwrap();

    op.call(AddressingMode::Immediate, &mut r, &mut m).unwrap();

    assert_eq!(0x10, r.a.value);
    assert!(!r.p.is_zero());
    assert!(!r.p.is_negative());
}

#[test]
fn lda_zero() {
    let (op, mut r, mut m) = (Lda, CpuRegisters::new(), Memory::new());

    m.write(0x0000, 0x00).unwrap();

    op.call(AddressingMode::Immediate, &mut r, &mut m).unwrap();

    assert_eq!(0x00, r.a.value);
    assert!(r.p.is_zero());
    assert!(!r.p.is_negative());
}

#[test]
fn lda_negative() {
    let (op, mut r, mut m) = (Lda, CpuRegisters::new(), Memory::new());

    m.write(0x0000, 0xFF).unwrap();

    op.call(AddressingMode::Immediate, &mut r, &mut m).unwrap();

    assert_eq!(0xFF, r.a.value);
    assert!(!r.p.is_zero());
    assert!(r.p.is_negative());
}

#[test]
fn ldx_simple() {
    let (op, mut r, mut m) = (Ldx, CpuRegisters::new(), Memory::new());

    m.write(0x0000, 0x10).unwrap();

    op.call(AddressingMode::Immediate, &mut r, &mut m).unwrap();

    assert_eq!(0x10, r.x.value);
    assert!(!r.p.is_zero());
    assert!(!r.p.is_negative());
}

#[test]
fn ldx_zero() {
    let (op, mut r, mut m) = (Ldx, CpuRegisters::new(), Memory::new());

    m.write(0x0000, 0x00).unwrap();

    op.call(AddressingMode::Immediate, &mut r, &mut m).unwrap();

    assert_eq!(0x00, r.x.value);
    assert!(r.p.is_zero());
    assert!(!r.p.is_negative());
}

#[test]
fn ldx_negative() {
    let (op, mut r, mut m) = (Ldx, CpuRegisters::new(), Memory::new());

    m.write(0x0000, 0xFF).unwrap();

    op.call(AddressingMode::Immediate, &mut r, &mut m).unwrap();

    assert_eq!(0xFF, r.x.value);
    assert!(!r.p.is_zero());
    assert!(r.p.is_negative());
}

#[test]
fn lsr_accumulator() {
    let (op, mut r, mut m) = (Lsr, CpuRegisters::new(), Memory::new());

    r.a.set(0b0000_0010);

    op.call(AddressingMode::Accumulator, &mut r, &mut m).unwrap();

    assert_eq!(0b0000_0001, r.a.value);
    assert!(!r.p.is_negative());
    assert!(!r.p.is_zero());
    assert!(!r.p.has_carry());
}

#[test]
fn accumulator_zero() {
    let (op, mut r, mut m) = (Lsr, CpuRegisters::new(), Memory::new());

    r.a.set(0b0000_0001);

    op.call(AddressingMode::Accumulator, &mut r, &mut m).unwrap();

    assert_eq!(0b0000_0000, r.a.value);
    assert!(!r.p.is_negative());
    assert!(r.p.is_zero());
    assert!(r.p.has_carry());
}

#[test]
fn pha_simple() {
    let (op, mut r, mut m) = (Pha, CpuRegisters::new(), Memory::new());

    r.a.set(0x50);

    op.call(AddressingMode::Implicit, &mut r, &mut m).unwrap();

    assert_eq!(0x50, stack_peek(&r, &m));
    assert_eq!(0xFE, r.sp.value);
}

#[test]
fn php_simple() {
    let (op, mut r, mut m) = (Php, CpuRegisters::new(), Memory::new());

    r.p.set_carry(true);
    r.p.set_negative(true);
    r.p.set_overflow(true);

    op.call(AddressingMode::Implicit, &mut r, &mut m).unwrap();

    assert_eq!(0b1111_0001, stack_peek(&r, &m));
    assert_eq!(0xFE, r.sp.value);
}

#[test]
fn pla_simple() {
    let (op, mut r, mut m) = (Pla, CpuRegisters::new(), Memory::new());

    r.a.set(0x00);

    r.sp.set(0x80);
    m.write(STACK_START + 0x81, 0x50).unwrap();

    op.call(AddressingMode::Implicit, &mut r, &mut m).unwrap();

    assert_eq!(0x50, r.a.value);
    assert_eq!(0x81, r.sp.value);

    assert!(!r.p.is_negative());
    assert!(!r.p.is_zero());
}

#[test]
fn pla_zero() {
    let (op, mut r, mut m) = (Pla, CpuRegisters::new(), Memory::new());

    r.a.set(0x50);
    r.sp.set(0x80);
    m.write(STACK_START + 0x81, 0x00).unwrap();

    op.call(AddressingMode::Implicit, &mut r, &mut m).unwrap();

    assert_eq!(0x00, r.a.value);

    assert!(!r.p.is_negative());
    assert!(r.p.is_zero());
}

#[test]
fn pla_negative() {
    let (op, mut r, mut m) = (Pla, CpuRegisters::new(), Memory::new());

    r.a.set(0x00);
    r.sp.set(0x80);
    m.write(STACK_START + 0x81, 0xFF).unwrap();

    op.call(AddressingMode::Implicit, &mut r, &mut m).unwrap();

    assert_eq!(0xFF, r.a.value);

    assert!(r.p.is_negative());
    assert!(!r.p.is_zero());
}

#[test]
fn plp_simple() {
    let (op, mut r, mut m) = (Plp, CpuRegisters::new(), Memory::new());

    r.sp.set(0x80);
    m.write(STACK_START + 0x81, 0b1100_0001).unwrap();

    op.call(AddressingMode::Implicit, &mut r, &mut m).unwrap();

    assert_eq!(0x81, r.sp.value);

    assert!(r.p.has_carry());
    assert!(r.p.has_overflown());
    assert!(r.p.is_negative());
}

#[test]
fn rol_accumulator() {
    let (op, mut r, mut m) = (Rol, CpuRegisters::new(), Memory::new());

    r.a.set(0b0101_0101);

    op.call(AddressingMode::Accumulator, &mut r, &mut m).unwrap();

    assert_eq!(0b1010_1010, r.a.value);

    assert!(r.p.is_negative());
    assert!(!r.p.is_zero());
    assert!(!r.p.has_carry());
}

#[test]
fn rol_zero() {
    let (op, mut r, mut m) = (Rol, CpuRegisters::new(), Memory::new());

    r.a.set(0x00);

    op.call(AddressingMode::Accumulator, &mut r, &mut m).unwrap();

    assert_eq!(0x00, r.a.value);

    assert!(!r.p.is_negative());
    assert!(r.p.is_zero());
    assert!(!r.p.has_carry());
}

#[test]
fn rol_will_carry() {
    let (op, mut r, mut m) = (Rol, CpuRegisters::new(), Memory::new());

    r.a.set(0b1000_0001);

    op.call(AddressingMode::Accumulator, &mut r, &mut m).unwrap();

    assert_eq!(0b0000_0010, r.a.value);

    assert!(!r.p.is_negative());
    assert!(!r.p.is_zero());
    assert!(r.p.has_carry());
}

#[test]
fn rol_with_previous_carry() {
    let (op, mut r, mut m) = (Rol, CpuRegisters::new(), Memory::new());

    r.p.set_carry(true);
    r.a.set(0b0000_1000);

    op.call(AddressingMode::Accumulator, &mut r, &mut m).unwrap();

    assert_eq!(0b0001_0001, r.a.value);

    assert!(!r.p.is_negative());
    assert!(!r.p.is_zero());
    assert!(!r.p.has_carry());
}

#[test]
fn ror_accumulator() {
    let (op, mut r, mut m) = (Ror, CpuRegisters::new(), Memory::new());

    r.a.set(0b1010_1010);

    op.call(AddressingMode::Accumulator, &mut r, &mut m).unwrap();

    assert_eq!(0b0101_0101, r.a.value);

    assert!(!r.p.is_negative());
    assert!(!r.p.is_zero());
    assert!(!r.p.has_carry());
}

#[test]
fn ror_zero() {
    let (op, mut r, mut m) = (Ror, CpuRegisters::new(), Memory::new());

    r.a.set(0x00);

    op.call(AddressingMode::Accumulator, &mut r, &mut m).unwrap();

    assert_eq!(0x00, r.a.value);

    assert!(!r.p.is_negative());
    assert!(r.p.is_zero());
    assert!(!r.p.has_carry());
}

#[test]
fn ror_will_carry() {
    let (op, mut r, mut m) = (Ror, CpuRegisters::new(), Memory::new());

    r.a.set(0b1000_0001);

    op.call(AddressingMode::Accumulator, &mut r, &mut m).unwrap();

    assert_eq!(0b0100_0000, r.a.value);

    assert!(!r.p.is_negative());
    assert!(!r.p.is_zero());
    assert!(r.p.has_carry());
}

#[test]
fn ror_with_previous_carry() {
    let (op, mut r, mut m) = (Ror, CpuRegisters::new(), Memory::new());

    r.p.set_carry(true);
    r.a.set(0b0000_1000);

    op.call(AddressingMode::Accumulator, &mut r, &mut m).unwrap();

    assert_eq!(0b1000_0100, r.a.value);

    assert!(r.p.is_negative());
    assert!(!r.p.is_zero());
    assert!(!r.p.has_carry());
}

#[test]
fn rti_simple() {
    let (op, mut r, mut m) = (Rti, CpuRegisters::new(), Memory::new());

    stack_push_u16(&mut r, &mut m, 0x8000);
    // NVss DIZC
    stack_push(&mut r, &mut m, 0b1100_0001);

    op.call(AddressingMode::Implicit, &mut r, &mut m).unwrap();

    assert_eq!(0x8000, r.pc.value);
    assert_eq!(0xFF, r.sp.value);

    assert!(r.p.is_negative());
    assert!(r.p.has_overflown());
    assert!(r.p.has_carry());
}

#[test]
fn rts_simple() {
    let (op, mut r, mut m) = (Rts, CpuRegisters::new(), Memory::new());

    stack_push_u16(&mut r, &mut m, 0x8000);

    op.call(AddressingMode::Implicit, &mut r, &mut m).unwrap();

    assert_eq!(0x8001, r.pc.value);
}

#[test]
fn sbc_simple() {
    let (op, mut r, mut m) = (Sbc, CpuRegisters::new(), Memory::new());

    r.a.set(0x10);
    r.p.set_carry(true);
    m.write(0x0000, 0x03).unwrap();

    op.call(AddressingMode::Immediate, &mut r, &mut m).unwrap();

    assert_eq!(0x0D, r.a.value);
    assert!(r.p.has_carry());
    assert!(!r.p.is_negative());
    assert!(!r.p.is_zero());
    assert!(!r.p.has_overflown());
}

#[test]
fn with_borrow_set() {
    let (op, mut r, mut m) = (Sbc, CpuRegisters::new(), Memory::new());

    r.a.set(0x09);
    r.p.set_carry(false); // Borrow = !Carry
    m.write(0x0000, 0x01).unwrap();

    op.call(AddressingMode::Immediate, &mut r, &mut m).unwrap();

    assert_eq!(0x07, r.a.value);
    assert!(!r.p.is_negative());
    assert!(!r.p.is_zero());
    assert!(r.p.has_carry());
    assert!(!r.p.has_overflown());
}

#[test]
fn unsigned_borrow_but_no_signed_overflow() {
    let (op, mut r, mut m) = (Sbc, CpuRegisters::new(), Memory::new());

    r.a.set(0x50);
    m.write(0x0000, 0x70).unwrap();
    r.p.set_carry(true);

    op.call(AddressingMode::Immediate, &mut r, &mut m).unwrap();

    assert_eq!(0xE0, r.a.value);
    assert!(r.p.is_negative());
    assert!(!r.p.is_zero());
    assert!(!r.p.has_carry());
    assert!(!r.p.has_overflown());
}

#[test]
fn unsigned_borrow_and_signed_overflow() {
    let (op, mut r, mut m) = (Sbc, CpuRegisters::new(), Memory::new());

    r.a.set(0x50);
    m.write(0x0000, 0xb0).unwrap();
    r.p.set_carry(true);

    op.call(AddressingMode::Immediate, &mut r, &mut m).unwrap();

    assert_eq!(0xA0, r.a.value);
    assert!(r.p.is_negative());
    assert!(!r.p.is_zero());
    assert!(!r.p.has_carry());
    assert!(r.p.has_overflown());
}

#[test]
fn no_unsigned_borrow_but_signed_overflow() {
    let (op, mut r, mut m) = (Sbc, CpuRegisters::new(), Memory::new());

    r.a.set(0xD0);
    m.write(0x0000, 0x70).unwrap();
    r.p.set_carry(true);

    op.call(AddressingMode::Immediate, &mut r, &mut m).unwrap();

    assert_eq!(0x60, r.a.value);
    assert!(!r.p.is_negative());
    assert!(!r.p.is_zero());
    assert!(r.p.has_carry());
    assert!(r.p.has_overflown());
}

#[test]
fn sta_simple() {
    let (op, mut r, mut m) = (Sta, CpuRegisters::new(), Memory::new());

    r.a.set(0x80);
    m.write(0x0000, 0x10).unwrap();

    op.call(AddressingMode::ZeroPage, &mut r, &mut m).unwrap();

    assert_eq!(0x80, m.read(0x0010));
}

#[test]
fn stx_simple() {
    let (op, mut r, mut m) = (Stx, CpuRegisters::new(), Memory::new());

    r.x.set(0x80);
    m.write(0x0000, 0x10).unwrap();

    op.call(AddressingMode::ZeroPage, &mut r, &mut m).unwrap();

    assert_eq!(0x80, m.read(0x0010));
}

#[test]
fn sty_simple() {
    let (op, mut r, mut m) = (Sty, CpuRegisters::new(), Memory::new());

    r.y.set(0x80);
    m.write(0x0000, 0x10).unwrap();

    op.call(AddressingMode::ZeroPage, &mut r, &mut m).unwrap();

    assert_eq!(0x80, m.read(0x0010));
}

#[test]
fn tax_simple() {
    let (op, mut r, mut m) = (Tax, CpuRegisters::new(), Memory::new());

    r.a.set(0x10);

    op.call(AddressingMode::Implicit, &mut r, &mut m).unwrap();

    assert_eq!(0x10, r.x.value);

    assert!(!r.p.is_zero());
    assert!(!r.p.is_negative());
}

#[test]
fn tax_zero() {
    let (op, mut r, mut m) = (Tax, CpuRegisters::new(), Memory::new());

    r.a.set(0x00);
    r.x.set(0xFF);

    op.call(AddressingMode::Implicit, &mut r, &mut m).unwrap();

    assert_eq!(0x00, r.x.value);

    assert!(r.p.is_zero());
    assert!(!r.p.is_negative());
}

#[test]
fn tax_negative() {
    let (op, mut r, mut m) = (Tax, CpuRegisters::new(), Memory::new());

    r.a.set(0xFF);

    op.call(AddressingMode::Implicit, &mut r, &mut m).unwrap();

    assert_eq!(0xFF, r.x.value);

    assert!(!r.p.is_zero());
    assert!(r.p.is_negative());
}

#[test]
fn tay_simple() {
    let (op, mut r, mut m) = (Tay, CpuRegisters::new(), Memory::new());

    r.a.set(0x10);

    op.call(AddressingMode::Implicit, &mut r, &mut m).unwrap();

    assert_eq!(0x10, r.y.value);

    assert!(!r.p.is_zero());
    assert!(!r.p.is_negative());
}

#[test]
fn tay_zero() {
    let (op, mut r, mut m) = (Tay, CpuRegisters::new(), Memory::new());

    r.a.set(0x00);
    r.x.set(0xFF);

    op.call(AddressingMode::Implicit, &mut r, &mut m).unwrap();

    assert_eq!(0x00, r.y.value);

    assert!(r.p.is_zero());
    assert!(!r.p.is_negative());
}

#[test]
fn tay_negative() {
    let (op, mut r, mut m) = (Tay, CpuRegisters::new(), Memory::new());

    r.a.set(0xFF);

    op.call(AddressingMode::Implicit, &mut r, &mut m).unwrap();

    assert_eq!(0xFF, r.y.value);

    assert!(!r.p.is_zero());
    assert!(r.p.is_negative());
}

#[test]
fn test_lda_immediate_simple() {
    let (op, mut r, mut m) = (Lda, CpuRegisters::new(), Memory::new());

    m.write(0x0000, 0x05).unwrap();
    op.call(AddressingMode::Immediate, &mut r, &mut m).unwrap();

    assert_eq!(0x05, r.a.value);
    assert!(!r.p.is_negative());
    assert!(!r.p.is_zero());
}

#[test]
fn test_lda_immediate_zero_flag() {
    let (op, mut r, mut m) = (Lda, CpuRegisters::new(), Memory::new());

    m.write(0x0000, 0x00).unwrap();
    op.call(AddressingMode::Immediate, &mut r, &mut m).unwrap();

    assert_eq!(0x00, r.a.value);
    assert!(r.p.is_zero());
}

#[test]
fn test_lda_immediate_negative_flag() {
    let (op, mut r, mut m) = (Lda, CpuRegisters::new(), Memory::new());

    m.write(0x0000, 0b1000_0001).unwrap();
    op.call(AddressingMode::Immediate, &mut r, &mut m).unwrap();

    assert_eq!(r.a.value, 0b1000_0001);
    assert!(r.p.is_negative());
}

#[test]
fn test_tax_simple() {
    let (op, mut r, mut m) = (Tax, CpuRegisters::new(), Memory::new());

    r.a.set(0x05);

    op.call(AddressingMode::Implicit, &mut r, &mut m).unwrap();

    assert_eq!(r.x.value, 0x05);
    assert!(!r.p.is_zero());
    assert!(!r.p.is_negative());
}

#[test]
fn test_tax_zero_flag() {
    let (op, mut r, mut m) = (Tax, CpuRegisters::new(), Memory::new());

    r.a.set(0x00);

    op.call(AddressingMode::Implicit, &mut r, &mut m).unwrap();

    assert!(r.p.is_zero());
}

#[test]
fn test_tax_negative_flag() {
    let (op, mut r, mut m) = (Tax, CpuRegisters::new(), Memory::new());

    r.a.set(0b1000_0001);

    op.call(AddressingMode::Implicit, &mut r, &mut m).unwrap();

    assert!(r.p.is_negative());
}

#[test]
fn test_inx_simple() {
    let (op, mut r, mut m) = (Inx, CpuRegisters::new(), Memory::new());

    r.x.set(0x00);

    op.call(AddressingMode::Implicit, &mut r, &mut m).unwrap();

    assert_eq!(r.x.value, 0x01);
    assert!(!r.p.is_negative());
    assert!(!r.p.is_zero());
}

#[test]
fn test_inx_zero_flag() {
    let (op, mut r, mut m) = (Inx, CpuRegisters::new(), Memory::new());

    r.x.set(0xFF);

    op.call(AddressingMode::Implicit, &mut r, &mut m).unwrap();

    assert_eq!(r.x.value, 0x00);
    assert!(r.p.is_zero());
}

#[test]
fn test_inx_negative_flag() {
    let (op, mut r, mut m) = (Inx, CpuRegisters::new(), Memory::new());

    r.x.set(0b1000_0000);

    op.call(AddressingMode::Implicit, &mut r, &mut m).unwrap();

    assert_eq!(r.x.value, 0b1000_0001);
    assert!(r.p.is_negative());
}

#[test]
fn tsx_simple() {
    let (op, mut r, mut m) = (Tsx, CpuRegisters::new(), Memory::new());

    r.sp.set(0x10);

    op.call(AddressingMode::Implicit, &mut r, &mut m).unwrap();

    assert_eq!(0x10, r.x.value);

    assert!(!r.p.is_zero());
    assert!(!r.p.is_negative());
}

#[test]
fn tsx_zero() {
    let (op, mut r, mut m) = (Tsx, CpuRegisters::new(), Memory::new());

    r.sp.set(0x00);
    r.x.set(0xFF);

    op.call(AddressingMode::Implicit, &mut r, &mut m).unwrap();

    assert_eq!(0x00, r.x.value);

    assert!(r.p.is_zero());
    assert!(!r.p.is_negative());
}

#[test]
fn tsx_negative() {
    let (op, mut r, mut m) = (Tsx, CpuRegisters::new(), Memory::new());

    r.sp.set(0xFF);

    op.call(AddressingMode::Implicit, &mut r, &mut m).unwrap();

    assert_eq!(0xFF, r.x.value);

    assert!(!r.p.is_zero());
    assert!(r.p.is_negative());
}

#[test]
fn txa_simple() {
    let (op, mut r, mut m) = (Txa, CpuRegisters::new(), Memory::new());

    r.x.set(0x10);

    op.call(AddressingMode::Implicit, &mut r, &mut m).unwrap();

    assert_eq!(0x10, r.a.value);

    assert!(!r.p.is_zero());
    assert!(!r.p.is_negative());
}

#[test]
fn txa_zero() {
    let (op, mut r, mut m) = (Txa, CpuRegisters::new(), Memory::new());

    r.x.set(0x00);
    r.a.set(0xFF);

    op.call(AddressingMode::Implicit, &mut r, &mut m).unwrap();

    assert_eq!(0x00, r.a.value);

    assert!(r.p.is_zero());
    assert!(!r.p.is_negative());
}

#[test]
fn txa_negative() {
    let (op, mut r, mut m) = (Txa, CpuRegisters::new(), Memory::new());

    r.x.set(0xFF);

    op.call(AddressingMode::Implicit, &mut r, &mut m).unwrap();

    assert_eq!(0xFF, r.a.value);

    assert!(!r.p.is_zero());
    assert!(r.p.is_negative());
}

#[test]
fn txs_simple() {
    let (op, mut r, mut m) = (Txs, CpuRegisters::new(), Memory::new());

    r.x.set(0x10);

    op.call(AddressingMode::Implicit, &mut r, &mut m).unwrap();

    assert_eq!(0x10, r.sp.value);
}

#[test]
fn tya_simple() {
    let (op, mut r, mut m) = (Tya, CpuRegisters::new(), Memory::new());

    r.y.set(0x10);

    op.call(AddressingMode::Implicit, &mut r, &mut m).unwrap();

    assert_eq!(0x10, r.a.value);

    assert!(!r.p.is_zero());
    assert!(!r.p.is_negative());
}

#[test]
fn tya_zero() {
    let (op, mut r, mut m) = (Tya, CpuRegisters::new(), Memory::new());

    r.y.set(0x00);
    r.a.set(0xFF);

    op.call(AddressingMode::Implicit, &mut r, &mut m).unwrap();

    assert_eq!(0x00, r.a.value);

    assert!(r.p.is_zero());
    assert!(!r.p.is_negative());
}

#[test]
fn tya_negative() {
    let (op, mut r, mut m) = (Tya, CpuRegisters::new(), Memory::new());

    r.y.set(0xFF);

    op.call(AddressingMode::Implicit, &mut r, &mut m).unwrap();

    assert_eq!(0xFF, r.a.value);

    assert!(!r.p.is_zero());
    assert!(r.p.is_negative());
}

#[test]
fn ldy_zero_page_x() {
    let (op, mut r, mut m) = (Ldy, CpuRegisters::new(), Memory::new());

    m.write(0x0000, 0x40).unwrap();
    r.x.set(0x02);
    m.write(0x0042, 0x90).unwrap();

    op.call(AddressingMode::ZeroPageX, &mut r, &mut m).unwrap();

    assert_eq!(0x90, r.y.value);
    assert!(r.p.is_negative());
    assert!(!r.p.is_zero());
}

#[test]
fn ora_immediate() {
    let (op, mut r, mut m) = (Ora, CpuRegisters::new(), Memory::new());

    r.a.set(0b0000_0101);
    m.write(0x0000, 0b0101_0000).unwrap();

    op.call(AddressingMode::Immediate, &mut r, &mut m).unwrap();

    assert_eq!(0b0101_0101, r.a.value);
    assert!(!r.p.is_negative());
    assert!(!r.p.is_zero());
}

#[test]
fn asl_memory_write_into_program_window_is_refused() {
    let (op, mut r, mut m) = (Asl, CpuRegisters::new(), Memory::new());

    m.write_u16(0x0000, 0x8000).unwrap();

    assert_eq!(Err(rust_nes::cpu::memory::BusError::ReadOnly(0x8000)), op.call(AddressingMode::Absolute, &mut r, &mut m));
    assert!(!r.p.is_zero());
}

#[test]
fn rol_memory_byte() {
    let (op, mut r, mut m) = (Rol, CpuRegisters::new(), Memory::new());

    r.p.set_carry(true);
    m.write(0x0000, 0x20).unwrap();
    m.write(0x0020, 0b1000_0000).unwrap();

    op.call(AddressingMode::ZeroPage, &mut r, &mut m).unwrap();

    assert_eq!(0b0000_0001, m.read(0x0020));
    assert!(r.p.has_carry());
    assert!(!r.p.is_zero());
}

#[test]
fn php_then_plp_ignores_reserved_bits() {
    let mut r = CpuRegisters::new();
    let mut m = Memory::new();

    r.p.set_zero(true);
    Php.call(AddressingMode::Implicit, &mut r, &mut m).unwrap();
    assert_eq!(0b0011_0010, stack_peek(&r, &m));
    r.p.set_zero(false);
    Plp.call(AddressingMode::Implicit, &mut r, &mut m).unwrap();

    assert!(r.p.is_zero());
    assert_eq!(0b0000_0010, r.p.to_byte());
    assert_eq!(0xFF, r.sp.value);
}
