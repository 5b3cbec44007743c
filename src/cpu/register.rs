//! Register bank and processor status flags.
use vstd::prelude::*;

verus! {

/// Value the stack pointer holds after a reset.
pub const STACK_POINTER_START: u8 = 0xFF;

pub const CARRY_FLAG: u8 = 0b0000_0001;
pub const ZERO_FLAG: u8 = 0b0000_0010;
pub const INTERRUPT_FLAG: u8 = 0b0000_0100;
pub const DECIMAL_FLAG: u8 = 0b0000_1000;
pub const OVERFLOW_FLAG: u8 = 0b0100_0000;
pub const NEGATIVE_FLAG: u8 = 0b1000_0000;

/// The two reserved bit positions (4 and 5) of the packed flags byte,
/// forced to one whenever the flags are pushed onto the stack.
pub const BREAK_FLAG: u8 = 0b0011_0000;

/// The stack pointer after one byte was pushed.
pub open spec fn sp_after_push(sp: u8) -> u8 {
    ((sp + 255) % 256) as u8
}

/// The stack pointer after one byte was pulled.
pub open spec fn sp_after_pull(sp: u8) -> u8 {
    ((sp + 1) % 256) as u8
}

/// Zero flag rule: set exactly when the produced byte is zero.
pub open spec fn is_zero_byte(v: u8) -> bool {
    v == 0
}

/// Negative flag rule: set exactly when bit 7 of the produced byte is set.
pub open spec fn is_negative_byte(v: u8) -> bool {
    v & 0x80 != 0
}

/// A single processor register.
#[derive(Clone, Copy, Debug)]
pub struct Register<T> {
    pub value: T,
}

impl<T: Copy> Register<T> {
    pub fn from(value: T) -> (r: Self)
        ensures
            r.value == value,
    {
        Register { value }
    }

    pub fn set(&mut self, value: T)
        ensures
            final(self).value == value,
    {
        self.value = value;
    }

    pub fn get(&self) -> (r: T)
        ensures
            r == self.value,
    {
        self.value
    }
}

impl Register<u8> {
    /// A byte register holding zero.
    pub fn new() -> (r: Self)
        ensures
            r.value == 0,
    {
        Register { value: 0 }
    }

    /// Moves the stack pointer up by one (wrapping) and returns the new value.
    pub fn increment(&mut self) -> (r: u8)
        ensures
            final(self).value == sp_after_pull(old(self).value),
            r == final(self).value,
    {
        self.value = self.value.wrapping_add(1);
        self.value
    }

    /// Moves the stack pointer down by one (wrapping) and returns the value it
    /// held before.
    pub fn decrement(&mut self) -> (r: u8)
        ensures
            final(self).value == sp_after_push(old(self).value),
            r == old(self).value,
    {
        let value = self.value;
        self.value = self.value.wrapping_sub(1);
        value
    }
}

impl Register<u16> {
    /// A 16-bit register holding zero.
    pub fn new() -> (r: Self)
        ensures
            r.value == 0,
    {
        Register { value: 0 }
    }
}

/// The six processor flags, plus the engine's own record that a break
/// instruction ran.
#[derive(Clone, Copy, Debug)]
pub struct StatusRegister {
    pub carry: bool,
    pub zero: bool,
    pub interrupt_disable: bool,
    pub decimal_mode: bool,
    pub overflow: bool,
    pub negative: bool,
    pub break_state: bool,
}

/// All flags cleared.
pub open spec fn cleared_flags() -> StatusRegister {
    StatusRegister {
        carry: false,
        zero: false,
        interrupt_disable: false,
        decimal_mode: false,
        overflow: false,
        negative: false,
        break_state: false,
    }
}

impl StatusRegister {
    /// The flags with zero and negative taken from the byte `v`.
    pub open spec fn with_nz(self, v: u8) -> StatusRegister {
        StatusRegister { zero: is_zero_byte(v), negative: is_negative_byte(v), ..self }
    }

    /// The six flags packed into a byte (reserved bits clear).
    pub open spec fn packed(self) -> u8 {
        (if self.carry { CARRY_FLAG } else { 0u8 }) | (if self.zero { ZERO_FLAG } else { 0u8 }) | (
        if self.interrupt_disable {
            INTERRUPT_FLAG
        } else {
            0u8
        }) | (if self.decimal_mode { DECIMAL_FLAG } else { 0u8 }) | (if self.overflow {
            OVERFLOW_FLAG
        } else {
            0u8
        }) | (if self.negative { NEGATIVE_FLAG } else { 0u8 })
    }

    /// The flags that a packed byte describes; the reserved bits are ignored.
    pub open spec fn unpacked(byte: u8) -> StatusRegister {
        StatusRegister {
            carry: byte & CARRY_FLAG != 0,
            zero: byte & ZERO_FLAG != 0,
            interrupt_disable: byte & INTERRUPT_FLAG != 0,
            decimal_mode: byte & DECIMAL_FLAG != 0,
            overflow: byte & OVERFLOW_FLAG != 0,
            negative: byte & NEGATIVE_FLAG != 0,
            break_state: false,
        }
    }

    pub fn new() -> (r: Self)
        ensures
            r == cleared_flags(),
    {
        StatusRegister {
            carry: false,
            zero: false,
            interrupt_disable: false,
            decimal_mode: false,
            overflow: false,
            negative: false,
            break_state: false,
        }
    }

    pub fn reset(&mut self)
        ensures
            *final(self) == cleared_flags(),
    {
        *self = StatusRegister::new();
    }

    /// Sets zero and negative from a just-produced byte.
    pub fn update_for_value(&mut self, value: u8)
        ensures
            *final(self) == old(self).with_nz(value),
    {
        self.zero = value == 0;
        self.negative = value & 0x80 != 0;
    }

    pub fn set_zero(&mut self, flag: bool)
        ensures
            *final(self) == (StatusRegister { zero: flag, ..*old(self) }),
    {
        self.zero = flag;
    }

    pub fn is_zero(&self) -> (r: bool)
        ensures
            r == self.zero,
    {
        self.zero
    }

    pub fn set_negative(&mut self, flag: bool)
        ensures
            *final(self) == (StatusRegister { negative: flag, ..*old(self) }),
    {
        self.negative = flag;
    }

    pub fn is_negative(&self) -> (r: bool)
        ensures
            r == self.negative,
    {
        self.negative
    }

    pub fn set_carry(&mut self, flag: bool)
        ensures
            *final(self) == (StatusRegister { carry: flag, ..*old(self) }),
    {
        self.carry = flag;
    }

    pub fn has_carry(&self) -> (r: bool)
        ensures
            r == self.carry,
    {
        self.carry
    }

    pub fn set_overflow(&mut self, flag: bool)
        ensures
            *final(self) == (StatusRegister { overflow: flag, ..*old(self) }),
    {
        self.overflow = flag;
    }

    pub fn has_overflown(&self) -> (r: bool)
        ensures
            r == self.overflow,
    {
        self.overflow
    }

    pub fn set_decimal_mode(&mut self, flag: bool)
        ensures
            *final(self) == (StatusRegister { decimal_mode: flag, ..*old(self) }),
    {
        self.decimal_mode = flag;
    }

    pub fn decimal_mode(&self) -> (r: bool)
        ensures
            r == self.decimal_mode,
    {
        self.decimal_mode
    }

    pub fn set_interrupt_disable(&mut self, flag: bool)
        ensures
            *final(self) == (StatusRegister { interrupt_disable: flag, ..*old(self) }),
    {
        self.interrupt_disable = flag;
    }

    pub fn interrupt_disabled(&self) -> (r: bool)
        ensures
            r == self.interrupt_disable,
    {
        self.interrupt_disable
    }

    /// Records (or clears) that a break instruction ran.
    pub fn set_break(&mut self, flag: bool)
        ensures
            *final(self) == (StatusRegister { break_state: flag, ..*old(self) }),
    {
        self.break_state = flag;
    }

    pub fn has_broken(&self) -> (r: bool)
        ensures
            r == self.break_state,
    {
        self.break_state
    }

    /// Packs the six flags into a byte, reserved bits clear.
    pub fn to_byte(&self) -> (r: u8)
        ensures
            r == self.packed(),
    {
        (if self.carry { CARRY_FLAG } else { 0u8 }) | (if self.zero { ZERO_FLAG } else { 0u8 }) | (
        if self.interrupt_disable {
            INTERRUPT_FLAG
        } else {
            0u8
        }) | (if self.decimal_mode { DECIMAL_FLAG } else { 0u8 }) | (if self.overflow {
            OVERFLOW_FLAG
        } else {
            0u8
        }) | (if self.negative { NEGATIVE_FLAG } else { 0u8 })
    }

    /// Unpacks a flags byte; the reserved bits are ignored and the break
    /// record is cleared.
    pub fn from_byte(byte: u8) -> (r: Self)
        ensures
            r == StatusRegister::unpacked(byte),
    {
        StatusRegister {
            carry: byte & CARRY_FLAG != 0,
            zero: byte & ZERO_FLAG != 0,
            interrupt_disable: byte & INTERRUPT_FLAG != 0,
            decimal_mode: byte & DECIMAL_FLAG != 0,
            overflow: byte & OVERFLOW_FLAG != 0,
            negative: byte & NEGATIVE_FLAG != 0,
            break_state: false,
        }
    }
}

/// Unpacking a packed flags byte gives back the six flags.
pub proof fn lemma_pack_unpack(p: StatusRegister)
    ensures
        StatusRegister::unpacked(p.packed()) == (StatusRegister { break_state: false, ..p }),
{
    let (c, z, i, d, v, n) = (p.carry, p.zero, p.interrupt_disable, p.decimal_mode, p.overflow, p.negative);
    let b = p.packed();
    assert((b & 1u8 != 0) == c && (b & 2u8 != 0) == z && (b & 4u8 != 0) == i && (b & 8u8 != 0) == d
        && (b & 64u8 != 0) == v && (b & 128u8 != 0) == n) by (bit_vector)
        requires
            b == ((if c { 1u8 } else { 0u8 }) | (if z { 2u8 } else { 0u8 }) | (if i { 4u8 } else { 0u8 })
                | (if d { 8u8 } else { 0u8 }) | (if v { 64u8 } else { 0u8 }) | (if n { 128u8 } else { 0u8 })),
    ;
}

/// The accumulator, index registers, stack pointer, program counter and flags.
#[derive(Clone, Copy, Debug)]
pub struct CpuRegisters {
    pub p: StatusRegister,
    pub pc: Register<u16>,
    pub sp: Register<u8>,
    pub a: Register<u8>,
    pub x: Register<u8>,
    pub y: Register<u8>,
}

impl CpuRegisters {
    pub open spec fn with_a(self, v: u8) -> CpuRegisters {
        CpuRegisters { a: Register { value: v }, ..self }
    }

    pub open spec fn with_x(self, v: u8) -> CpuRegisters {
        CpuRegisters { x: Register { value: v }, ..self }
    }

    pub open spec fn with_y(self, v: u8) -> CpuRegisters {
        CpuRegisters { y: Register { value: v }, ..self }
    }

    pub open spec fn with_sp(self, v: u8) -> CpuRegisters {
        CpuRegisters { sp: Register { value: v }, ..self }
    }

    pub open spec fn with_pc(self, v: u16) -> CpuRegisters {
        CpuRegisters { pc: Register { value: v }, ..self }
    }

    pub open spec fn with_p(self, p: StatusRegister) -> CpuRegisters {
        CpuRegisters { p, ..self }
    }

    /// Registers zeroed, stack pointer at its start value, flags cleared.
    pub fn new() -> (r: Self)
        ensures
            r.p == cleared_flags(),
            r.pc.value == 0,
            r.sp.value == STACK_POINTER_START,
            r.a.value == 0,
            r.x.value == 0,
            r.y.value == 0,
    {
        CpuRegisters {
            p: StatusRegister::new(),
            pc: Register::<u16>::new(),
            sp: Register::from(STACK_POINTER_START),
            a: Register::<u8>::new(),
            x: Register::<u8>::new(),
            y: Register::<u8>::new(),
        }
    }
}

} // verus!
